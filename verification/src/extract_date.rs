//! The resolution pipeline: an ordered chain of extraction strategies, each
//! reading a different signal source, feeding the first candidate found into
//! the multi-format date parser.

use vstd::prelude::*;
use crate::dates::Date;
use crate::dates::valid_date;
use crate::dom::Document;
use crate::dom::ElementView;
use crate::dom::dom_of;
use crate::errors::ExtractError;
use crate::fallback_tags::extract_from_html_tag;
use crate::fallback_tags::html_tag_candidate_spec;
use crate::formats::parse_date;
use crate::formats::parse_date_spec;
use crate::ldjson::extract_from_ldjson;
use crate::ldjson::ldjson_candidate_spec;
use crate::meta_tags::extract_from_meta;
use crate::meta_tags::meta_candidate_spec;
use crate::url_date::extract_from_url;
use crate::url_date::url_candidate_spec;

verus! {

/// The candidate the ordered strategy chain yields: the URL's embedded date
/// first, else the structured-data block, else the meta tags, else the
/// fallback tags; each stage runs only when every earlier stage found
/// nothing.
pub open spec fn candidate_spec(url: Seq<char>, dom: Seq<ElementView>) -> Option<Seq<char>> {
    if url_candidate_spec(url) is Some {
        url_candidate_spec(url)
    } else if ldjson_candidate_spec(dom) is Some {
        ldjson_candidate_spec(dom)
    } else if meta_candidate_spec(dom) is Some {
        meta_candidate_spec(dom)
    } else {
        html_tag_candidate_spec(dom)
    }
}

/// What resolution returns: the first candidate's parse — even when that
/// parse fails, the pipeline does not fall through to a later stage — and
/// `ResolutionFailure` when no stage produced a candidate.
pub open spec fn resolve_spec(url: Seq<char>, dom: Seq<ElementView>) -> Result<
    Date,
    ExtractError,
> {
    match candidate_spec(url, dom) {
        None => Err(ExtractError::ResolutionFailure),
        Some(c) => parse_date_spec(c),
    }
}

/// Attempts to extract the article's publication date by trying several
/// strategies in a row: the date embedded in the URL, the structured-data
/// block, the meta tags, and the other date-bearing markup tags. The first
/// candidate found is handed to the format matcher, whose outcome is final.
pub fn extract_article_published_date(link: &str, html: &str) -> (r: Result<Date, ExtractError>)
    ensures
        r == resolve_spec(link@, dom_of(html@)),
        r matches Ok(d) ==> valid_date(d),
{
    let doc = Document::from_html(html);
    let candidate: Option<String> = match extract_from_url(link) {
        Some(c) => Some(c),
        None => match extract_from_ldjson(&doc) {
            Some(c) => Some(c),
            None => match extract_from_meta(&doc) {
                Some(c) => Some(c),
                None => extract_from_html_tag(&doc),
            },
        },
    };
    match candidate {
        None => Err(ExtractError::ResolutionFailure),
        Some(c) => parse_date(c.as_str()),
    }
}

/// Resolution is referentially transparent: the same URL and markup always
/// yield the same outcome, with no hidden state between calls.
pub proof fn lemma_resolution_deterministic(
    url1: Seq<char>,
    html1: Seq<char>,
    url2: Seq<char>,
    html2: Seq<char>,
)
    requires
        url1 == url2,
        html1 == html2,
    ensures
        resolve_spec(url1, dom_of(html1)) == resolve_spec(url2, dom_of(html2)),
{
}

} // verus!
