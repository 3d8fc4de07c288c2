//! The URL date extractor: scans a URL for an embedded year/month/day
//! pattern.

use vstd::prelude::*;
use crate::patterns::regex_find;
use crate::patterns::regex_first_match;
use crate::patterns::url_date_pattern;
use crate::patterns::url_date_pattern_spec;

verus! {

/// The candidate a URL yields: the leftmost match of the embedded-date
/// pattern, verbatim, separators included.
pub open spec fn url_candidate_spec(url: Seq<char>) -> Option<Seq<char>> {
    regex_first_match(url_date_pattern_spec(), url)
}

/// Returns the leftmost match of the embedded-date pattern in the URL,
/// verbatim and unnormalized; `None` when the URL holds no embedded date,
/// which is not an error condition.
pub fn extract_from_url(url: &str) -> (r: Option<String>)
    ensures
        r.deep_view() == url_candidate_spec(url@),
{
    regex_find(url_date_pattern(), url)
}

} // verus!
