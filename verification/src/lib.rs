//! Extracts the publication date of a web article from its URL and HTML body.
//!
//! The library runs an ordered chain of extraction strategies, each reading a
//! different signal source (the URL itself, an embedded structured-data block,
//! meta tags, and date-bearing visible markup), and hands the first candidate
//! string it finds to a multi-format date parser.

pub mod dates;
pub mod dom;
pub mod errors;
pub mod extract_date;
pub mod fallback_tags;
pub mod formats;
pub mod ldjson;
pub mod meta_tags;
pub mod patterns;
pub mod text;
pub mod url_date;
