//! JSON documents as plain values: what the simulator reads out of a command or
//! a message frame, with `serde_json` doing the parsing.

use vstd::prelude::*;
use serde_json::Value;
use crate::text::opt_text;
use serde_json::Value::{Array, Bool, Null, Object};

verus! {

/// One JSON value: the scalars as they are, and an object or array inside
/// another one as its compact JSON text.
#[derive(Clone, Debug, PartialEq)]
pub enum JsonItem {
    Null,
    Bool(bool),
    /// A number: its value where it is a non-negative integer that fits in a
    /// `u64`, and its text.
    Number { unsigned: Option<u64>, text: String },
    Text(String),
    Nested(String),
}

/// A parsed JSON document: an object with its members, an array with its
/// elements, or a single scalar.
#[derive(Clone, Debug, PartialEq)]
pub enum JsonDocument {
    Object(Vec<(String, JsonItem)>),
    Array(Vec<JsonItem>),
    Scalar(JsonItem),
}

/// The mathematical value of a [`JsonItem`].
pub enum JsonItemModel {
    Null,
    Bool(bool),
    Number { unsigned: Option<u64>, text: Seq<char> },
    Text(Seq<char>),
    Nested(Seq<char>),
}

/// The mathematical value of a [`JsonDocument`].
pub enum JsonDocumentModel {
    Object(Seq<(Seq<char>, JsonItemModel)>),
    Array(Seq<JsonItemModel>),
    Scalar(JsonItemModel),
}

impl View for JsonItem {
    type V = JsonItemModel;

    open spec fn view(&self) -> JsonItemModel {
        match self {
            JsonItem::Null => JsonItemModel::Null,
            JsonItem::Bool(b) => JsonItemModel::Bool(*b),
            JsonItem::Number { unsigned, text } => JsonItemModel::Number {
                unsigned: *unsigned,
                text: text@,
            },
            JsonItem::Text(s) => JsonItemModel::Text(s@),
            JsonItem::Nested(s) => JsonItemModel::Nested(s@),
        }
    }
}

/// The model of one member of an object.
pub open spec fn member_model(m: (String, JsonItem)) -> (Seq<char>, JsonItemModel) {
    (m.0@, m.1@)
}

/// The model of one element of an array.
pub open spec fn item_model(i: JsonItem) -> JsonItemModel {
    i@
}

impl View for JsonDocument {
    type V = JsonDocumentModel;

    open spec fn view(&self) -> JsonDocumentModel {
        match self {
            JsonDocument::Object(ms) => JsonDocumentModel::Object(ms@.map_values(|m| member_model(m))),
            JsonDocument::Array(items) => JsonDocumentModel::Array(items@.map_values(|i| item_model(i))),
            JsonDocument::Scalar(i) => JsonDocumentModel::Scalar(i@),
        }
    }
}

/// What `serde_json` makes of a text: the document it parses, or the message of
/// the error it reports.
pub uninterp spec fn json_parse_outcome(text: Seq<char>) -> Result<JsonDocumentModel, Seq<char>>;

/// The model of a parse result.
pub open spec fn outcome_model(r: Result<JsonDocument, String>) -> Result<JsonDocumentModel, Seq<char>> {
    match r {
        Ok(d) => Ok(d@),
        Err(e) => Err(e@),
    }
}

/// Parses `text` with `serde_json::from_str` into a `serde_json::Value` and takes
/// it apart into plain values; a parse error becomes its message
/// (`serde_json::Error`'s `Display`). The contract claims only that the outcome
/// is a function of the text alone, named [`json_parse_outcome`].
#[verifier::external_body]
pub fn parse_json(text: &str) -> (r: Result<JsonDocument, String>)
    ensures
        outcome_model(r) == json_parse_outcome(text@),
{
    let item = |v: &Value| match v {
        Null => JsonItem::Null,
        Bool(b) => JsonItem::Bool(*b),
        Value::Number(n) => JsonItem::Number { unsigned: n.as_u64(), text: n.to_string() },
        Value::String(s) => JsonItem::Text(s.clone()),
        other => JsonItem::Nested(other.to_string()),
    };
    let value = serde_json::from_str(text).map_err(|e| e.to_string())?;
    Ok(match value {
        Object(m) => JsonDocument::Object(m.into_iter().map(|(k, v)| (k, item(&v))).collect()),
        Array(a) => JsonDocument::Array(a.iter().map(item).collect()),
        v => JsonDocument::Scalar(item(&v)),
    })
}

/// Whether member `i` of `ms` has the key `key` and no earlier one does.
pub open spec fn first_member_with(ms: Seq<(Seq<char>, JsonItemModel)>, key: Seq<char>, i: int) -> bool {
    &&& 0 <= i < ms.len()
    &&& ms[i].0 == key
    &&& forall|j: int| 0 <= j < i ==> ms[j].0 != key
}

/// The value of the member `key` of a document: `None` when the document is no
/// object or has no such member.
pub open spec fn member(doc: JsonDocumentModel, key: Seq<char>) -> Option<JsonItemModel> {
    match doc {
        JsonDocumentModel::Object(ms) => if exists|i: int| first_member_with(ms, key, i) {
            Some(ms[choose|i: int| first_member_with(ms, key, i)].1)
        } else {
            None
        },
        _ => None,
    }
}

/// Looks up the member `key` of a document.
pub fn lookup_member<'a>(doc: &'a JsonDocument, key: &str) -> (r: Option<&'a JsonItem>)
    ensures
        match r {
            Some(x) => member(doc@, key@) == Some(x@),
            None => member(doc@, key@) is None,
        },
{
    match doc {
        JsonDocument::Object(ms) => {
            let ghost model = doc@->Object_0;
            let mut i: usize = 0;
            while i < ms.len()
                invariant
                    i <= ms.len(),
                    model == ms@.map_values(|m| member_model(m)),
                    doc@ == JsonDocumentModel::Object(model),
                    forall|j: int| 0 <= j < i ==> model[j].0 != key@,
                decreases ms.len() - i,
            {
                let found = crate::text::str_eq(ms[i].0.as_str(), key);
                if found {
                    proof {
                        assert(model[i as int] == member_model(ms@[i as int]));
                        assert(first_member_with(model, key@, i as int));
                        let k = choose|k: int| first_member_with(model, key@, k);
                        assert(k == i) by {
                            if k < i {
                                assert(model[k].0 != key@);
                            }
                            if i < k {
                                assert(model[i as int].0 != key@);
                            }
                        }
                        assert(member(doc@, key@) == Some(model[i as int].1));
                        assert(model[i as int].1 == ms@[i as int].1@);
                    }
                    return Some(&ms[i].1);
                }
                i = i + 1;
            }
            None
        },
        _ => None,
    }
}

/// The text of a JSON string.
pub open spec fn item_text(item: Option<JsonItemModel>) -> Option<Seq<char>> {
    match item {
        Some(JsonItemModel::Text(s)) => Some(s),
        _ => None,
    }
}

/// The value of a non-negative integer that fits in a `u64`.
pub open spec fn item_unsigned(item: Option<JsonItemModel>) -> Option<u64> {
    match item {
        Some(JsonItemModel::Number { unsigned, .. }) => unsigned,
        _ => None,
    }
}

/// The value of a JSON boolean.
pub open spec fn item_bool(item: Option<JsonItemModel>) -> Option<bool> {
    match item {
        Some(JsonItemModel::Bool(b)) => Some(b),
        _ => None,
    }
}

/// The text of a JSON number.
pub open spec fn item_number_text(item: Option<JsonItemModel>) -> Option<Seq<char>> {
    match item {
        Some(JsonItemModel::Number { text, .. }) => Some(text),
        _ => None,
    }
}

/// The text of the member `key` where it is a string.
pub fn member_text(doc: &JsonDocument, key: &str) -> (r: Option<String>)
    ensures
        opt_text(r) == item_text(member(doc@, key@)),
{
    match lookup_member(doc, key) {
        Some(JsonItem::Text(s)) => Some(s.clone()),
        _ => None,
    }
}

/// The value of the member `key` where it is a non-negative integer that fits in
/// a `u64`.
pub fn member_unsigned(doc: &JsonDocument, key: &str) -> (r: Option<u64>)
    ensures
        r == item_unsigned(member(doc@, key@)),
{
    match lookup_member(doc, key) {
        Some(JsonItem::Number { unsigned, .. }) => *unsigned,
        _ => None,
    }
}

/// The value of the member `key` where it is a boolean.
pub fn member_bool(doc: &JsonDocument, key: &str) -> (r: Option<bool>)
    ensures
        r == item_bool(member(doc@, key@)),
{
    match lookup_member(doc, key) {
        Some(JsonItem::Bool(b)) => Some(*b),
        _ => None,
    }
}

/// The text of the member `key` where it is a number.
pub fn member_number_text(doc: &JsonDocument, key: &str) -> (r: Option<String>)
    ensures
        opt_text(r) == item_number_text(member(doc@, key@)),
{
    match lookup_member(doc, key) {
        Some(JsonItem::Number { text, .. }) => Some(text.clone()),
        _ => None,
    }
}

} // verus!
