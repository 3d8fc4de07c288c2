//! The fallback tag extractor: scans time, span, paragraph and container
//! elements whose attributes or class names hint at a publication date.

use vstd::prelude::*;
use vstd::string::*;
use crate::dom::Document;
use crate::dom::Element;
use crate::dom::ElementView;
use crate::dom::first_attr;
use crate::dom::first_candidate;
use crate::dom::lemma_first_candidate_at;
use crate::patterns::keyword_pattern;
use crate::patterns::keyword_pattern_spec;
use crate::patterns::regex_find;
use crate::patterns::regex_first_match;
use crate::text::str_eq;
use crate::text::trim_nl;
use crate::text::trim_nl_spec;

verus! {

/// The candidate a time element yields: its "datetime" attribute value when
/// present; else, when its class is exactly "timestamp", its trimmed text.
pub open spec fn time_element_candidate(e: ElementView) -> Option<Seq<char>> {
    if e.name != "time"@ {
        None
    } else {
        match first_attr(e.attrs, "datetime"@) {
            Some(v) => Some(v),
            None => {
                if first_attr(e.attrs, "class"@) == Some("timestamp"@) {
                    Some(trim_nl_spec(e.text))
                } else {
                    None
                }
            },
        }
    }
}

/// The candidate the document's time elements yield, in document order.
pub open spec fn time_candidate_spec(dom: Seq<ElementView>) -> Option<Seq<char>> {
    first_candidate(dom, |e: ElementView| time_element_candidate(e))
}

/// The candidate a span element with item-property "datePublished" yields:
/// its "content" attribute value when present, else its trimmed text when
/// the text is non-empty.
pub open spec fn span_published_candidate(e: ElementView) -> Option<Seq<char>> {
    if e.name == "span"@ && first_attr(e.attrs, "itemprop"@) == Some("datePublished"@) {
        match first_attr(e.attrs, "content"@) {
            Some(v) => Some(v),
            None => {
                if e.text.len() > 0 {
                    Some(trim_nl_spec(e.text))
                } else {
                    None
                }
            },
        }
    } else {
        None
    }
}

/// The candidate the document's span elements with item-property
/// "datePublished" yield, in document order.
pub open spec fn span_published_spec(dom: Seq<ElementView>) -> Option<Seq<char>> {
    first_candidate(dom, |e: ElementView| span_published_candidate(e))
}

/// The candidate an element named `tag` yields when its class attribute
/// matches the date keyword pattern: its trimmed text.
pub open spec fn keyword_class_candidate(e: ElementView, tag: Seq<char>) -> Option<Seq<char>> {
    if e.name == tag && (match first_attr(e.attrs, "class"@) {
        Some(c) => regex_first_match(keyword_pattern_spec(), c) is Some,
        None => false,
    }) {
        Some(trim_nl_spec(e.text))
    } else {
        None
    }
}

/// The candidate the document's elements named `tag` with a date-keyword
/// class yield, in document order.
pub open spec fn tag_regex_candidate_spec(dom: Seq<ElementView>, tag: Seq<char>) -> Option<
    Seq<char>,
> {
    first_candidate(dom, |e: ElementView| keyword_class_candidate(e, tag))
}

/// The candidate the fallback tags yield, in strict priority order: time
/// elements, then spans marked "datePublished", then span, paragraph and
/// container elements with a date-keyword class.
pub open spec fn html_tag_candidate_spec(dom: Seq<ElementView>) -> Option<Seq<char>> {
    if time_candidate_spec(dom) is Some {
        time_candidate_spec(dom)
    } else if span_published_spec(dom) is Some {
        span_published_spec(dom)
    } else if tag_regex_candidate_spec(dom, "span"@) is Some {
        tag_regex_candidate_spec(dom, "span"@)
    } else if tag_regex_candidate_spec(dom, "p"@) is Some {
        tag_regex_candidate_spec(dom, "p"@)
    } else {
        tag_regex_candidate_spec(dom, "div"@)
    }
}

fn time_element_try(e: &Element) -> (r: Option<String>)
    ensures
        r.deep_view() == time_element_candidate(e@),
{
    if !e.has_name("time") {
        return None;
    }
    match e.attr("datetime") {
        Some(v) => Some(v),
        None => {
            let is_timestamp = match e.attr("class") {
                Some(c) => str_eq(c.as_str(), "timestamp"),
                None => false,
            };
            if is_timestamp {
                Some(String::from_str(trim_nl(e.text.as_str())))
            } else {
                None
            }
        },
    }
}

fn span_element_try(e: &Element) -> (r: Option<String>)
    ensures
        r.deep_view() == span_published_candidate(e@),
{
    if !e.has_name("span") {
        return None;
    }
    let is_published = match e.attr("itemprop") {
        Some(v) => str_eq(v.as_str(), "datePublished"),
        None => false,
    };
    if !is_published {
        return None;
    }
    match e.attr("content") {
        Some(v) => Some(v),
        None => {
            if !e.text.as_str().is_empty() {
                Some(String::from_str(trim_nl(e.text.as_str())))
            } else {
                None
            }
        },
    }
}

fn keyword_element_try(e: &Element, tag: &str) -> (r: Option<String>)
    ensures
        r.deep_view() == keyword_class_candidate(e@, tag@),
{
    if !e.has_name(tag) {
        return None;
    }
    let class_hit = match e.attr("class") {
        Some(c) => match regex_find(keyword_pattern(), c.as_str()) {
            Some(_) => true,
            None => false,
        },
        None => false,
    };
    if class_hit {
        Some(String::from_str(trim_nl(e.text.as_str())))
    } else {
        None
    }
}

/// Scans the document's time elements in order and returns the first
/// candidate one of them yields.
pub fn extract_time_tag(html: &Document) -> (r: Option<String>)
    ensures
        r.deep_view() == time_candidate_spec(html@),
{
    let ghost f = |e: ElementView| time_element_candidate(e);
    let n = html.elements.len();
    let mut i: usize = 0;
    while i < n
        invariant
            f == (|e: ElementView| time_element_candidate(e)),
            n == html.elements.len(),
            0 <= i <= n,
            forall|j: int| 0 <= j < i ==> f(html@[j]) is None,
        decreases n - i,
    {
        proof {
            assert(html@[i as int] == html.elements@[i as int]@);
        }
        match time_element_try(&html.elements[i]) {
            Some(v) => {
                proof {
                    lemma_first_candidate_at(html@, f, i as int);
                }
                return Some(v);
            },
            None => {},
        }
        i += 1;
    }
    proof {
        lemma_first_candidate_at(html@, f, n as int);
    }
    None
}

/// Scans the document's span elements in order for one marked with
/// item-property "datePublished" and returns its candidate.
pub fn extract_span_date_published(html: &Document) -> (r: Option<String>)
    ensures
        r.deep_view() == span_published_spec(html@),
{
    let ghost f = |e: ElementView| span_published_candidate(e);
    let n = html.elements.len();
    let mut i: usize = 0;
    while i < n
        invariant
            f == (|e: ElementView| span_published_candidate(e)),
            n == html.elements.len(),
            0 <= i <= n,
            forall|j: int| 0 <= j < i ==> f(html@[j]) is None,
        decreases n - i,
    {
        proof {
            assert(html@[i as int] == html.elements@[i as int]@);
        }
        match span_element_try(&html.elements[i]) {
            Some(v) => {
                proof {
                    lemma_first_candidate_at(html@, f, i as int);
                }
                return Some(v);
            },
            None => {},
        }
        i += 1;
    }
    proof {
        lemma_first_candidate_at(html@, f, n as int);
    }
    None
}

/// Scans the document's elements named `tag` in order and returns the
/// trimmed text of the first one whose class matches the date keyword
/// pattern.
pub fn extract_from_tag_with_regex(html: &Document, tag: &str) -> (r: Option<String>)
    ensures
        r.deep_view() == tag_regex_candidate_spec(html@, tag@),
{
    let ghost f = |e: ElementView| keyword_class_candidate(e, tag@);
    let n = html.elements.len();
    let mut i: usize = 0;
    while i < n
        invariant
            f == (|e: ElementView| keyword_class_candidate(e, tag@)),
            n == html.elements.len(),
            0 <= i <= n,
            forall|j: int| 0 <= j < i ==> f(html@[j]) is None,
        decreases n - i,
    {
        proof {
            assert(html@[i as int] == html.elements@[i as int]@);
        }
        match keyword_element_try(&html.elements[i], tag) {
            Some(v) => {
                proof {
                    lemma_first_candidate_at(html@, f, i as int);
                }
                return Some(v);
            },
            None => {},
        }
        i += 1;
    }
    proof {
        lemma_first_candidate_at(html@, f, n as int);
    }
    None
}

/// Tries the fallback steps in strict priority order, stopping at the first
/// success: time elements, spans marked "datePublished", then span,
/// paragraph and container elements with a date-keyword class.
pub fn extract_from_html_tag(html: &Document) -> (r: Option<String>)
    ensures
        r.deep_view() == html_tag_candidate_spec(html@),
{
    match extract_time_tag(html) {
        Some(v) => {
            return Some(v);
        },
        None => {},
    }
    match extract_span_date_published(html) {
        Some(v) => {
            return Some(v);
        },
        None => {},
    }
    match extract_from_tag_with_regex(html, "span") {
        Some(v) => {
            return Some(v);
        },
        None => {},
    }
    match extract_from_tag_with_regex(html, "p") {
        Some(v) => {
            return Some(v);
        },
        None => {},
    }
    extract_from_tag_with_regex(html, "div")
}

} // verus!
