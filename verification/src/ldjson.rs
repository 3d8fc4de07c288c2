//! The structured-data extractor: reads the publication or creation date
//! field of an embedded ld+json block.

use vstd::prelude::*;
use crate::dom::Document;
use crate::dom::ElementView;
use crate::dom::first_attr;
use crate::dom::first_candidate;
use crate::dom::lemma_first_candidate_at;
use crate::text::str_eq;

verus! {

/// The string value of the top-level field named `key` in the JSON text:
/// a function of the text and the key alone.
pub uninterp spec fn json_string_field(text: Seq<char>, key: Seq<char>) -> Option<Seq<char>>;

/// Relies on serde_json: `from_str` parses the text into a JSON value as a
/// function of the text alone; `Value::get` looks the field named `key` up
/// in a JSON object, and `Value::as_str` hands its value back verbatim when
/// it is a string. `None` when the text is not valid JSON, the field is
/// absent, or its value is not a string.
#[verifier::external_body]
fn json_field(text: &str, key: &str) -> (r: Option<String>)
    ensures
        r.deep_view() == json_string_field(text@, key@),
{
    match serde_json::from_str::<serde_json::Value>(text) {
        Ok(v) => match v.get(key) {
            Some(f) => f.as_str().map(String::from),
            None => None,
        },
        Err(_) => None,
    }
}

/// Whether an element is flagged as a structured-data payload.
pub open spec fn is_ldjson_element(e: ElementView) -> bool {
    first_attr(e.attrs, "type"@) == Some("application/ld+json"@)
}

/// The text of the first element flagged as a structured-data payload.
pub open spec fn ldjson_text_spec(dom: Seq<ElementView>) -> Option<Seq<char>> {
    first_candidate(
        dom,
        |e: ElementView|
            if is_ldjson_element(e) {
                Some(e.text)
            } else {
                None
            },
    )
}

/// The candidate the structured-data block yields: its "datePublished"
/// field, else its "dateCreated" field; `None` when the block is absent,
/// unparsable, or holds neither field as a plain string.
pub open spec fn ldjson_candidate_spec(dom: Seq<ElementView>) -> Option<Seq<char>> {
    match ldjson_text_spec(dom) {
        None => None,
        Some(t) => match json_string_field(t, "datePublished"@) {
            Some(v) => Some(v),
            None => json_string_field(t, "dateCreated"@),
        },
    }
}

/// Finds the first structured-data block of the document and reads its
/// "datePublished" field, falling back to "dateCreated"; degrades to `None`
/// rather than failing when the block is absent or malformed.
pub fn extract_from_ldjson(html: &Document) -> (r: Option<String>)
    ensures
        r.deep_view() == ldjson_candidate_spec(html@),
{
    let ghost f = |e: ElementView|
        if is_ldjson_element(e) {
            Some(e.text)
        } else {
            None
        };
    let n = html.elements.len();
    let mut i: usize = 0;
    while i < n
        invariant
            f == (|e: ElementView|
                if is_ldjson_element(e) {
                    Some(e.text)
                } else {
                    None
                }),
            n == html.elements.len(),
            0 <= i <= n,
            forall|j: int| 0 <= j < i ==> f(html@[j]) is None,
        decreases n - i,
    {
        proof {
            assert(html@[i as int] == html.elements@[i as int]@);
        }
        let e = &html.elements[i];
        let matched = match e.attr("type") {
            Some(t) => str_eq(t.as_str(), "application/ld+json"),
            None => false,
        };
        if matched {
            proof {
                lemma_first_candidate_at(html@, f, i as int);
            }
            let text = e.text.as_str();
            match json_field(text, "datePublished") {
                Some(v) => {
                    return Some(v);
                },
                None => {
                    return json_field(text, "dateCreated");
                },
            }
        }
        i += 1;
    }
    proof {
        lemma_first_candidate_at(html@, f, n as int);
    }
    None
}

} // verus!
