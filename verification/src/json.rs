//! A one-level model of JSON documents, as far as this library reads them.
//!
//! A document is decoded by `serde_json`; the library keeps the top-level
//! node with every child value held as its compact JSON text, and descends
//! into a child by decoding that text in turn.

use vstd::prelude::*;
use vstd::string::StringSliceAdditionalSpecFns;

verus! {

/// The top level of a decoded JSON value; children are compact JSON texts.
#[derive(Debug, Clone, PartialEq, Eq)]
pub enum JsonNode {
    /// `null`
    Null,
    /// `true` / `false`
    Bool(bool),
    /// A number, as its JSON text.
    Number(String),
    /// A string.
    Str(String),
    /// An array; each element as JSON text.
    Array(Vec<String>),
    /// An object; each member as (key, JSON text of the value).
    Object(Vec<(String, String)>),
}

/// A decoded JSON document: its top-level node and its compact JSON text.
#[derive(Debug, Clone, PartialEq, Eq)]
pub struct JsonDoc {
    /// The top-level node.
    pub node: JsonNode,
    /// The whole value re-serialised as compact JSON.
    pub text: String,
}

/// Mathematical view of [`JsonNode`].
pub enum JsonNodeView {
    Null,
    Bool(bool),
    Number(Seq<char>),
    Str(Seq<char>),
    Array(Seq<Seq<char>>),
    Object(Seq<(Seq<char>, Seq<char>)>),
}

/// Mathematical view of [`JsonDoc`].
pub struct JsonDocView {
    pub node: JsonNodeView,
    pub text: Seq<char>,
}

impl View for JsonNode {
    type V = JsonNodeView;

    open spec fn view(&self) -> JsonNodeView {
        match self {
            JsonNode::Null => JsonNodeView::Null,
            JsonNode::Bool(b) => JsonNodeView::Bool(*b),
            JsonNode::Number(n) => JsonNodeView::Number(n@),
            JsonNode::Str(s) => JsonNodeView::Str(s@),
            JsonNode::Array(items) => JsonNodeView::Array(items.deep_view()),
            JsonNode::Object(members) => JsonNodeView::Object(members.deep_view()),
        }
    }
}

impl View for JsonDoc {
    type V = JsonDocView;

    open spec fn view(&self) -> JsonDocView {
        JsonDocView { node: self.node@, text: self.text@ }
    }
}

/// The view of an optional document.
pub open spec fn doc_view(d: Option<JsonDoc>) -> Option<JsonDocView> {
    match d {
        Some(d) => Some(d@),
        None => None,
    }
}

/// The value that `serde_json::from_slice::<serde_json::Value>` decodes from
/// `bytes`, seen through [`JsonDocView`]; `None` where it reports an error.
pub uninterp spec fn spec_json_decode(bytes: Seq<u8>) -> Option<JsonDocView>;

/// Decode `bytes` with `serde_json::from_slice` into a `serde_json::Value`
/// and hand back its top level as a [`JsonDoc`] (children and the whole value
/// re-serialised with `serde_json`'s compact `Display`). The contract only
/// names the outcome: it is a function of the bytes alone.
#[verifier::external_body]
pub(crate) fn json_decode(bytes: &[u8]) -> (r: Option<JsonDoc>)
    ensures
        doc_view(r) == spec_json_decode(bytes@),
{
    let value: serde_json::Value = serde_json::from_slice(bytes).ok()?;
    let text = value.to_string();
    let node = match value {
        serde_json::Value::Null => JsonNode::Null,
        serde_json::Value::Bool(b) => JsonNode::Bool(b),
        serde_json::Value::Number(n) => JsonNode::Number(n.to_string()),
        serde_json::Value::String(s) => JsonNode::Str(s),
        serde_json::Value::Array(a) => JsonNode::Array(a.iter().map(|v| v.to_string()).collect()),
        serde_json::Value::Object(m) => JsonNode::Object(m.into_iter().map(|(k, v)| (k, v.to_string())).collect()),
    };
    Some(JsonDoc { node, text })
}

/// The text of the first member named `key`, if any.
pub open spec fn spec_member(members: Seq<(Seq<char>, Seq<char>)>, key: Seq<char>) -> Option<Seq<char>>
    decreases members.len(),
{
    if members.len() == 0 {
        None
    } else if members[0].0 == key {
        Some(members[0].1)
    } else {
        spec_member(members.drop_first(), key)
    }
}

/// Equality of two strings, compared through their UTF-8 bytes.
pub fn str_equal(a: &str, b: &str) -> (r: bool)
    ensures
        r == (a@ == b@),
{
    let x = a.as_bytes();
    let y = b.as_bytes();
    proof {
        vstd::utf8::encode_utf8_decode_utf8(a@);
        vstd::utf8::encode_utf8_decode_utf8(b@);
    }
    if x.len() != y.len() {
        return false;
    }
    let mut i: usize = 0;
    while i < x.len()
        invariant
            x@ == a.spec_bytes(),
            y@ == b.spec_bytes(),
            x@.len() == y@.len(),
            0 <= i <= x@.len(),
            forall|j: int| 0 <= j < i ==> x@[j] == y@[j],
        decreases x@.len() - i,
    {
        if x[i] != y[i] {
            return false;
        }
        i = i + 1;
    }
    assert(x@ =~= y@);
    true
}

/// Look up the member named `key` of an object's members.
pub fn member<'a>(members: &'a Vec<(String, String)>, key: &str) -> (r: Option<&'a String>)
    ensures
        match r {
            Some(s) => spec_member(members.deep_view(), key@) == Some(s@),
            None => spec_member(members.deep_view(), key@) is None,
        },
{
    let mut i: usize = 0;
    assert(members.deep_view().skip(0) =~= members.deep_view());
    while i < members.len()
        invariant
            0 <= i <= members@.len(),
            spec_member(members.deep_view(), key@) == spec_member(members.deep_view().skip(i as int), key@),
        decreases members@.len() - i,
    {
        let ghost rest = members.deep_view().skip(i as int);
        assert(rest.drop_first() =~= members.deep_view().skip(i + 1));
        if str_equal(members[i].0.as_str(), key) {
            return Some(&members[i].1);
        }
        i = i + 1;
    }
    assert(members.deep_view().skip(i as int).len() == 0);
    None
}

} // verus!

verus! {

/// The view of an optional string.
pub open spec fn opt_chars(o: Option<String>) -> Option<Seq<char>> {
    match o {
        Some(s) => Some(s@),
        None => None,
    }
}

/// The string a JSON text denotes, if it denotes a string (`Value::as_str`).
pub open spec fn spec_text_as_str(text: Seq<char>) -> Option<Seq<char>> {
    match spec_json_decode(vstd::utf8::encode_utf8(text)) {
        Some(d) => match d.node {
            JsonNodeView::Str(s) => Some(s),
            _ => None,
        },
        None => None,
    }
}

/// The members of the object a JSON text denotes, if it denotes an object (`Value::as_object`).
pub open spec fn spec_text_as_object(text: Seq<char>) -> Option<Seq<(Seq<char>, Seq<char>)>> {
    match spec_json_decode(vstd::utf8::encode_utf8(text)) {
        Some(d) => match d.node {
            JsonNodeView::Object(m) => Some(m),
            _ => None,
        },
        None => None,
    }
}

/// The boolean a JSON text denotes, if it denotes one (`Value::as_bool`).
pub open spec fn spec_text_as_bool(text: Seq<char>) -> Option<bool> {
    match spec_json_decode(vstd::utf8::encode_utf8(text)) {
        Some(d) => match d.node {
            JsonNodeView::Bool(b) => Some(b),
            _ => None,
        },
        None => None,
    }
}

/// Decodes a child's JSON text.
pub fn decode_text(text: &str) -> (r: Option<JsonDoc>)
    ensures
        doc_view(r) == spec_json_decode(vstd::utf8::encode_utf8(text@)),
{
    json_decode(text.as_bytes())
}

/// The string a JSON text denotes, if any.
pub fn text_as_str(text: &str) -> (r: Option<String>)
    ensures
        opt_chars(r) == spec_text_as_str(text@),
{
    match decode_text(text) {
        Some(d) => match d.node {
            JsonNode::Str(s) => Some(s),
            _ => None,
        },
        None => None,
    }
}

/// The object members a JSON text denotes, if any.
pub fn text_as_object(text: &str) -> (r: Option<Vec<(String, String)>>)
    ensures
        match r {
            Some(m) => spec_text_as_object(text@) == Some(m.deep_view()),
            None => spec_text_as_object(text@) is None,
        },
{
    match decode_text(text) {
        Some(d) => match d.node {
            JsonNode::Object(m) => Some(m),
            _ => None,
        },
        None => None,
    }
}

/// The boolean a JSON text denotes, if any.
pub fn text_as_bool(text: &str) -> (r: Option<bool>)
    ensures
        r == spec_text_as_bool(text@),
{
    match decode_text(text) {
        Some(d) => match d.node {
            JsonNode::Bool(b) => Some(b),
            _ => None,
        },
        None => None,
    }
}

} // verus!
