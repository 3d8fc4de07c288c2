//! The two fixed regular expressions of the library, and the trusted regex
//! call both are matched with.

use vstd::prelude::*;

verus! {

/// The pattern that finds a date embedded in a URL: a 4-digit year in
/// [1900, 2099] optionally bounded by separators, a month-or-weekday name of
/// 3 to 5 word characters or a 1-2 digit number, then optionally another 1-2
/// digit number, each segment optionally separator-delimited.
pub open spec fn url_date_pattern_spec() -> Seq<char> {
    r"([\./\-_]{0,1}(19|20)\d{2})[\./\-_]{0,1}(([0-3]{0,1}[0-9][\./\-_])|(\w{3,5}[\./\-_]))([0-3]{0,1}[0-9][\./\-]{0,1})"@
}

/// The keyword pattern that marks a class name as date-bearing.
pub open spec fn keyword_pattern_spec() -> Seq<char> {
    r"(?i)publishdate|pubdate|timestamp|article_date|articledate|date"@
}

pub fn url_date_pattern() -> (r: &'static str)
    ensures
        r@ == url_date_pattern_spec(),
{
    r"([\./\-_]{0,1}(19|20)\d{2})[\./\-_]{0,1}(([0-3]{0,1}[0-9][\./\-_])|(\w{3,5}[\./\-_]))([0-3]{0,1}[0-9][\./\-]{0,1})"
}

pub fn keyword_pattern() -> (r: &'static str)
    ensures
        r@ == keyword_pattern_spec(),
{
    r"(?i)publishdate|pubdate|timestamp|article_date|articledate|date"
}

/// The leftmost match of the compiled pattern in the text, verbatim; `None`
/// when the pattern does not compile or nothing matches.
pub uninterp spec fn regex_first_match(pat: Seq<char>, text: Seq<char>) -> Option<Seq<char>>;

/// Relies on regex's `Regex::new` and `Regex::find`: compiling a pattern and
/// taking the leftmost-first match is a function of the pattern and the
/// haystack alone, and the match text is returned verbatim. An invalid
/// pattern or a matchless haystack yields `None`.
#[verifier::external_body]
pub(crate) fn regex_find(pattern: &str, text: &str) -> (r: Option<String>)
    ensures
        r.deep_view() == regex_first_match(pattern@, text@),
{
    match regex::Regex::new(pattern) {
        Ok(re) => re.find(text).map(|m| String::from(m.as_str())),
        Err(_) => None,
    }
}

} // verus!
