//! JSON documents: the tree that a response body decodes to, and the lookup of
//! a member by its name.
//!
//! Decoding is the work of `serde_json`. Its result is brought into `Json`, a
//! tree of plain values, so that everything that reads a document is open to
//! proof.

use vstd::prelude::*;
use vstd::string::*;

verus! {

/// A JSON document.
#[derive(Debug, PartialEq)]
pub enum Json {
    Null,
    Bool(bool),
    /// A number, written out the way a coordinate holds its numbers. `None`
    /// stands for a number that cannot be written so.
    Number(Option<String>),
    Text(String),
    Array(Vec<Json>),
    /// The members of an object, each with its name.
    Object(Vec<(String, Json)>),
}

/// What a `Json` stands for.
pub enum JsonView {
    Null,
    Bool(bool),
    Number(Option<Seq<char>>),
    Text(Seq<char>),
    Array(Seq<JsonView>),
    Object(Seq<(Seq<char>, JsonView)>),
}

/// The document that `json` stands for, variant by variant.
pub open spec fn document_of(json: Json) -> JsonView
    decreases json,
{
    match json {
        Json::Null => JsonView::Null,
        Json::Bool(b) => JsonView::Bool(b),
        Json::Number(number) => JsonView::Number(
            match number {
                Some(text) => Some(text@),
                None => None,
            },
        ),
        Json::Text(text) => JsonView::Text(text@),
        Json::Array(items) => JsonView::Array(
            Seq::new(
                items@.len(),
                |i: int|
                    if 0 <= i < items@.len() {
                        document_of(items@[i])
                    } else {
                        JsonView::Null
                    },
            ),
        ),
        Json::Object(members) => JsonView::Object(
            Seq::new(
                members@.len(),
                |i: int|
                    if 0 <= i < members@.len() {
                        (members@[i].0@, document_of(members@[i].1))
                    } else {
                        (Seq::empty(), JsonView::Null)
                    },
            ),
        ),
    }
}

impl View for Json {
    type V = JsonView;

    open spec fn view(&self) -> JsonView {
        document_of(*self)
    }
}

/// The value of the first of `members` that is named `key`.
pub open spec fn first_named(members: Seq<(Seq<char>, JsonView)>, key: Seq<char>) -> Option<JsonView>
    decreases members.len(),
{
    if members.len() == 0 {
        None
    } else if members[0].0 == key {
        Some(members[0].1)
    } else {
        first_named(members.drop_first(), key)
    }
}

impl JsonView {
    /// The member of an object that is named `key`. Anything but an object
    /// has no members.
    pub open spec fn member(self, key: Seq<char>) -> Option<JsonView> {
        match self {
            JsonView::Object(members) => first_named(members, key),
            _ => None,
        }
    }
}

/// `serde_json::Value`, the tree that `serde_json` decodes to. Nothing of
/// its inside is known here; `lower` brings it into a `Json`.
#[verifier::external_type_specification]
#[verifier::external_body]
pub struct ExValue(serde_json::Value);

/// `serde_json::Error`, with which `serde_json` refuses a text. Nothing of
/// its inside is known or read here.
#[verifier::external_type_specification]
#[verifier::external_body]
pub struct ExError(serde_json::Error);

/// The document that `serde_json::from_slice` decodes `bytes` to, or `None`
/// where it refuses them. Nothing is assumed of it but that it is fixed by
/// the bytes.
pub uninterp spec fn json_document(bytes: Seq<u8>) -> Option<JsonView>;

/// The document that a `serde_json::Value` holds: what `lower` makes of it.
/// Nothing is assumed of it but that it is fixed by the value.
pub uninterp spec fn value_tree(value: serde_json::Value) -> JsonView;

/// `serde_json::from_slice`, asked for a `Value`. Not proved, but taken from
/// `serde_json`: whether it accepts `bytes`, and the document of the value
/// that it then returns, depend on the bytes alone.
#[verifier::external_body]
fn decode(bytes: &[u8]) -> (result: Result<serde_json::Value, serde_json::Error>)
    ensures
        match result {
            Ok(value) => json_document(bytes@) == Some(value_tree(value)),
            Err(_) => json_document(bytes@) is None,
        },
{
    serde_json::from_slice::<serde_json::Value>(bytes)
}

/// Brings a `serde_json::Value` into a `Json`, variant by variant: a string
/// and a member's name as they are, the items of an array and the members of
/// an object in the order in which `serde_json` walks them, and a number as
/// `f64` writes what `Number::as_f64` returns. Not proved, but taken from
/// `serde_json`: the result depends on the value alone.
#[verifier::external_body]
fn lower(value: &serde_json::Value) -> (result: Json)
    ensures
        result@ == value_tree(*value),
{
    match value {
        serde_json::Value::Null => Json::Null,
        serde_json::Value::Bool(b) => Json::Bool(*b),
        serde_json::Value::Number(n) => Json::Number(n.as_f64().map(|x| x.to_string())),
        serde_json::Value::String(s) => Json::Text(s.clone()),
        serde_json::Value::Array(items) => Json::Array(items.iter().map(lower).collect()),
        serde_json::Value::Object(members) => Json::Object(
            members.iter().map(|(k, v)| (k.clone(), lower(v))).collect(),
        ),
    }
}

impl Json {
    /// Decodes a JSON text. `None` if `bytes` are not one.
    pub fn parse(bytes: &[u8]) -> (result: Option<Json>)
        ensures
            match result {
                Some(json) => json_document(bytes@) == Some(json@),
                None => json_document(bytes@) is None,
            },
    {
        match decode(bytes) {
            Ok(value) => Some(lower(&value)),
            Err(_) => None,
        }
    }

    /// The member of an object that is named `key`. `None` if there is no
    /// such member, or if `self` is no object.
    pub fn get(&self, key: &str) -> (result: Option<&Json>)
        ensures
            match result {
                Some(json) => self@.member(key@) == Some(json@),
                None => self@.member(key@) is None,
            },
    {
        match self {
            Json::Object(members) => {
                let ghost all = self@->Object_0;
                let name = key.to_owned();
                let mut i: usize = 0;
                proof {
                    assert(all.skip(0) == all);
                }
                while i < members.len()
                    invariant
                        i <= members@.len(),
                        name@ == key@,
                        self@ == JsonView::Object(all),
                        all.len() == members@.len(),
                        forall|j: int|
                            0 <= j < all.len() ==> all[j] == (members@[j].0@, members@[j].1@),
                        first_named(all, key@) == first_named(all.skip(i as int), key@),
                    decreases members@.len() - i,
                {
                    proof {
                        assert(all.skip(i as int)[0] == all[i as int]);
                        assert(all.skip(i as int).drop_first() == all.skip(i + 1));
                    }
                    if members[i].0 == name {
                        return Some(&members[i].1);
                    }
                    i = i + 1;
                }
                None
            },
            _ => None,
        }
    }
}

} // verus!
