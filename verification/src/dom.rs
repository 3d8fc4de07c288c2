//! The read-only model of a parsed HTML document: the element nodes in
//! document order, each with its name, its attributes and its combined text.

use vstd::prelude::*;
use crate::text::str_eq;

verus! {

/// One attribute of an element: a name and a value.
pub struct Attribute {
    pub key: String,
    pub value: String,
}

pub ghost struct AttributeView {
    pub key: Seq<char>,
    pub value: Seq<char>,
}

impl View for Attribute {
    type V = AttributeView;

    open spec fn view(&self) -> AttributeView {
        AttributeView { key: self.key@, value: self.value@ }
    }
}

/// One element of a parsed document: its name, its attributes in source
/// order, and the combined text of the element and its descendants.
pub struct Element {
    pub name: String,
    pub attrs: Vec<Attribute>,
    pub text: String,
}

pub ghost struct ElementView {
    pub name: Seq<char>,
    pub attrs: Seq<AttributeView>,
    pub text: Seq<char>,
}

impl View for Element {
    type V = ElementView;

    open spec fn view(&self) -> ElementView {
        ElementView {
            name: self.name@,
            attrs: self.attrs@.map_values(|a: Attribute| a@),
            text: self.text@,
        }
    }
}

/// A parsed document: its element nodes in document order.
pub struct Document {
    pub elements: Vec<Element>,
}

impl View for Document {
    type V = Seq<ElementView>;

    open spec fn view(&self) -> Seq<ElementView> {
        self.elements@.map_values(|e: Element| e@)
    }
}

/// The element nodes that the HTML parser reads out of the given markup, in
/// document order.
pub uninterp spec fn dom_of(html: Seq<char>) -> Seq<ElementView>;

/// Relies on select's HTML parser: `Document::from(&str)` builds the node
/// list from the markup alone, `find(Element)` yields the element nodes in
/// document order, and `name`, `attrs` and `text` read each node's local
/// name, its attribute pairs in source order, and its combined descendant
/// text.
#[verifier::external_body]
fn parse_document(html: &str) -> (r: Document)
    ensures
        r@ == dom_of(html@),
{
    let parsed = select::document::Document::from(html);
    let elements = parsed
        .find(select::predicate::Element)
        .map(|n| Element {
            name: String::from(n.name().unwrap_or("")),
            attrs: n
                .attrs()
                .map(|(k, v)| Attribute { key: String::from(k), value: String::from(v) })
                .collect(),
            text: n.text(),
        })
        .collect();
    Document { elements }
}

/// The value of the first attribute named `key` in `attrs`, if any.
pub open spec fn first_attr(attrs: Seq<AttributeView>, key: Seq<char>) -> Option<Seq<char>>
    decreases attrs.len(),
{
    if attrs.len() == 0 {
        None
    } else if attrs[0].key == key {
        Some(attrs[0].value)
    } else {
        first_attr(attrs.drop_first(), key)
    }
}

proof fn lemma_first_attr_at(attrs: Seq<AttributeView>, key: Seq<char>, i: int)
    requires
        0 <= i <= attrs.len(),
        forall|j: int| 0 <= j < i ==> attrs[j].key != key,
        i == attrs.len() || attrs[i].key == key,
    ensures
        first_attr(attrs, key) == (if i == attrs.len() {
            None
        } else {
            Some(attrs[i].value)
        }),
    decreases i,
{
    if i == 0 {
    } else {
        lemma_first_attr_at(attrs.drop_first(), key, i - 1);
    }
}

/// The candidate the first element of `dom` that satisfies `f` yields:
/// elements are scanned in document order and the first success wins.
pub open spec fn first_candidate(
    dom: Seq<ElementView>,
    f: spec_fn(ElementView) -> Option<Seq<char>>,
) -> Option<Seq<char>>
    decreases dom.len(),
{
    if dom.len() == 0 {
        None
    } else if f(dom[0]) is Some {
        f(dom[0])
    } else {
        first_candidate(dom.drop_first(), f)
    }
}

pub proof fn lemma_first_candidate_at(
    dom: Seq<ElementView>,
    f: spec_fn(ElementView) -> Option<Seq<char>>,
    i: int,
)
    requires
        0 <= i <= dom.len(),
        forall|j: int| 0 <= j < i ==> f(dom[j]) is None,
        i == dom.len() || f(dom[i]) is Some,
    ensures
        first_candidate(dom, f) == (if i == dom.len() {
            None::<Seq<char>>
        } else {
            f(dom[i])
        }),
    decreases i,
{
    if i == 0 {
    } else {
        lemma_first_candidate_at(dom.drop_first(), f, i - 1);
    }
}

impl Document {
    /// Parses markup into the document model.
    pub fn from_html(html: &str) -> (r: Document)
        ensures
            r@ == dom_of(html@),
    {
        parse_document(html)
    }
}

impl Element {
    /// Whether this element's name is `tag`.
    pub fn has_name(&self, tag: &str) -> (r: bool)
        ensures
            r == (self@.name == tag@),
    {
        str_eq(self.name.as_str(), tag)
    }

    /// The value of this element's first attribute named `key`, if any.
    pub fn attr(&self, key: &str) -> (r: Option<String>)
        ensures
            r.deep_view() == first_attr(self@.attrs, key@),
    {
        let n = self.attrs.len();
        let mut i: usize = 0;
        while i < n
            invariant
                n == self.attrs.len(),
                0 <= i <= n,
                forall|j: int| 0 <= j < i ==> self@.attrs[j].key != key@,
            decreases n - i,
        {
            proof {
                assert(self@.attrs[i as int] == self.attrs@[i as int]@);
            }
            if str_eq(self.attrs[i].key.as_str(), key) {
                proof {
                    lemma_first_attr_at(self@.attrs, key@, i as int);
                }
                return Some(self.attrs[i].value.clone());
            }
            i += 1;
        }
        proof {
            lemma_first_attr_at(self@.attrs, key@, n as int);
        }
        None
    }
}

} // verus!
