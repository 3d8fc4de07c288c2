//! The meta-tag extractor: scans meta elements for the recognized
//! name/item-property/http-equivalent/property conventions.

use vstd::prelude::*;
use vstd::string::*;
use crate::dom::Document;
use crate::dom::Element;
use crate::dom::ElementView;
use crate::dom::first_attr;
use crate::dom::first_candidate;
use crate::dom::lemma_first_candidate_at;
use crate::text::fold_lower;
use crate::text::str_eq;
use crate::text::str_eq_fold;
use crate::text::trim_ws;
use crate::text::trim_ws_spec;
use crate::url_date::extract_from_url;
use crate::url_date::url_candidate_spec;

verus! {

/// Whether a meta "name" value belongs to the recognized set, compared up to
/// ASCII case.
pub open spec fn meta_name_denotes_date_spec(meta_name: Seq<char>) -> bool {
    let l = fold_lower(meta_name);
    ||| l == fold_lower("pubdate"@)
    ||| l == fold_lower("publishdate"@)
    ||| l == fold_lower("timestamp"@)
    ||| l == fold_lower("dc.date.issued"@)
    ||| l == fold_lower("date"@)
    ||| l == fold_lower("sailthru.date"@)
    ||| l == fold_lower("article.published"@)
    ||| l == fold_lower("published-date"@)
    ||| l == fold_lower("article.created"@)
    ||| l == fold_lower("article_date_original"@)
    ||| l == fold_lower("cxenseparse:recs:publishtime"@)
    ||| l == fold_lower("date_published"@)
}

/// Whether a meta "itemprop" value belongs to the recognized set, compared
/// up to ASCII case.
pub open spec fn meta_itemprop_denotes_date_spec(item_prop: Seq<char>) -> bool {
    let l = fold_lower(item_prop);
    l == fold_lower("datepublished"@) || l == fold_lower("datecreated"@)
}

/// Whether a meta "http-equiv" value is the recognized one, compared up to
/// ASCII case.
pub open spec fn meta_http_equiv_denotes_date_spec(http_equiv: Seq<char>) -> bool {
    fold_lower(http_equiv) == fold_lower("date"@)
}

/// Whether a meta "property" value belongs to the recognized set, compared
/// exactly.
pub open spec fn meta_property_denotes_date_spec(meta_property: Seq<char>) -> bool {
    meta_property == "article:published_time"@ || meta_property == "bt:pubdate"@
}

/// Whether the value of a meta element's "name" attribute marks it as
/// date-bearing.
pub fn meta_name_denotes_date(meta_name: &str) -> (r: bool)
    ensures
        r == meta_name_denotes_date_spec(meta_name@),
{
    ||| str_eq_fold(meta_name, "pubdate")
    ||| str_eq_fold(meta_name, "publishdate")
    ||| str_eq_fold(meta_name, "timestamp")
    ||| str_eq_fold(meta_name, "dc.date.issued")
    ||| str_eq_fold(meta_name, "date")
    ||| str_eq_fold(meta_name, "sailthru.date")
    ||| str_eq_fold(meta_name, "article.published")
    ||| str_eq_fold(meta_name, "published-date")
    ||| str_eq_fold(meta_name, "article.created")
    ||| str_eq_fold(meta_name, "article_date_original")
    ||| str_eq_fold(meta_name, "cxenseparse:recs:publishtime")
    ||| str_eq_fold(meta_name, "date_published")
}

/// Whether the value of a meta element's "itemprop" attribute marks it as
/// date-bearing.
pub fn meta_itemprop_denotes_date(item_prop: &str) -> (r: bool)
    ensures
        r == meta_itemprop_denotes_date_spec(item_prop@),
{
    str_eq_fold(item_prop, "datepublished") || str_eq_fold(item_prop, "datecreated")
}

/// Whether the value of a meta element's "http-equiv" attribute marks it as
/// date-bearing.
pub fn meta_http_equiv_denotes_date(http_equiv: &str) -> (r: bool)
    ensures
        r == meta_http_equiv_denotes_date_spec(http_equiv@),
{
    str_eq_fold(http_equiv, "date")
}

/// Whether the value of a meta element's "property" attribute marks it as
/// date-bearing; unlike the other channels this comparison is
/// case-sensitive.
pub fn meta_property_denotes_date(meta_property: &str) -> (r: bool)
    ensures
        r == meta_property_denotes_date_spec(meta_property@),
{
    str_eq(meta_property, "article:published_time") || str_eq(meta_property, "bt:pubdate")
}

/// Whether any of the four attribute channels of the element matches its
/// recognized set.
pub open spec fn meta_channels_match(e: ElementView) -> bool {
    ||| (match first_attr(e.attrs, "name"@) {
        Some(v) => meta_name_denotes_date_spec(v),
        None => false,
    })
    ||| (match first_attr(e.attrs, "itemprop"@) {
        Some(v) => meta_itemprop_denotes_date_spec(v),
        None => false,
    })
    ||| (match first_attr(e.attrs, "http-equiv"@) {
        Some(v) => meta_http_equiv_denotes_date_spec(v),
        None => false,
    })
    ||| (match first_attr(e.attrs, "property"@) {
        Some(v) => meta_property_denotes_date_spec(v),
        None => false,
    })
}

/// The candidate one meta element yields: its trimmed content when one of
/// the four channels matches; for property "og:image", whatever date the
/// content URL embeds; `None` otherwise, and always `None` without a
/// content attribute.
pub open spec fn meta_element_candidate(e: ElementView) -> Option<Seq<char>> {
    if e.name != "meta"@ {
        None
    } else {
        match first_attr(e.attrs, "content"@) {
            None => None,
            Some(raw) => {
                let content = trim_ws_spec(raw);
                if meta_channels_match(e) {
                    Some(content)
                } else if first_attr(e.attrs, "property"@) == Some("og:image"@) {
                    url_candidate_spec(content)
                } else {
                    None
                }
            },
        }
    }
}

/// The candidate the document's meta elements yield: the first element with
/// a matching channel wins, in document order.
pub open spec fn meta_candidate_spec(dom: Seq<ElementView>) -> Option<Seq<char>> {
    first_candidate(dom, |e: ElementView| meta_element_candidate(e))
}

fn meta_element_try(e: &Element) -> (r: Option<String>)
    ensures
        r.deep_view() == meta_element_candidate(e@),
{
    if !e.has_name("meta") {
        return None;
    }
    let raw = match e.attr("content") {
        Some(c) => c,
        None => {
            return None;
        },
    };
    let content = trim_ws(raw.as_str());
    let name_hit = match e.attr("name") {
        Some(v) => meta_name_denotes_date(v.as_str()),
        None => false,
    };
    let itemprop_hit = match e.attr("itemprop") {
        Some(v) => meta_itemprop_denotes_date(v.as_str()),
        None => false,
    };
    let http_hit = match e.attr("http-equiv") {
        Some(v) => meta_http_equiv_denotes_date(v.as_str()),
        None => false,
    };
    let prop_hit = match e.attr("property") {
        Some(v) => meta_property_denotes_date(v.as_str()),
        None => false,
    };
    if name_hit || itemprop_hit || http_hit || prop_hit {
        return Some(String::from_str(content));
    }
    let og_image = match e.attr("property") {
        Some(v) => str_eq(v.as_str(), "og:image"),
        None => false,
    };
    if og_image {
        extract_from_url(content)
    } else {
        None
    }
}

/// Scans the document's meta elements in order and returns the first
/// candidate any of them yields.
pub fn extract_from_meta(html: &Document) -> (r: Option<String>)
    ensures
        r.deep_view() == meta_candidate_spec(html@),
{
    let ghost f = |e: ElementView| meta_element_candidate(e);
    let n = html.elements.len();
    let mut i: usize = 0;
    while i < n
        invariant
            f == (|e: ElementView| meta_element_candidate(e)),
            n == html.elements.len(),
            0 <= i <= n,
            forall|j: int| 0 <= j < i ==> f(html@[j]) is None,
        decreases n - i,
    {
        proof {
            assert(html@[i as int] == html.elements@[i as int]@);
        }
        match meta_element_try(&html.elements[i]) {
            Some(v) => {
                proof {
                    lemma_first_candidate_at(html@, f, i as int);
                }
                return Some(v);
            },
            None => {},
        }
        i += 1;
    }
    proof {
        lemma_first_candidate_at(html@, f, n as int);
    }
    None
}

} // verus!
