//! JSON documents, as `serde_json` holds them.
//!
//! A document is opaque to the verifier. What the library needs to know of one is named
//! here, and the few `serde_json` calls that the library makes are wrapped and stated
//! over those names. Nothing in this file is proved but the routines at its end: the
//! wrappers' contracts are taken on trust.

use serde_json::Value;
use vstd::prelude::*;

verus! {

/// `serde_json::Value`, a JSON document.
#[verifier::external_type_specification]
#[verifier::external_body]
pub struct ExValue(serde_json::Value);

/// `serde_json::Error`, the reason a text is no JSON document.
#[verifier::external_type_specification]
#[verifier::external_body]
pub struct ExJsonError(serde_json::Error);

/// The document that a text parses to; `None` where the text is not one JSON value.
pub uninterp spec fn json_parse(text: Seq<char>) -> Option<Value>;

/// The compact text of a document.
pub uninterp spec fn json_text(doc: Value) -> Seq<char>;

/// The member of an object under a key; `None` where the document is no object or has
/// no such key.
pub uninterp spec fn json_member(doc: Value, key: Seq<char>) -> Option<Value>;

/// The characters of a document that is a string; `None` for any other document.
pub uninterp spec fn json_string(doc: Value) -> Option<Seq<char>>;

/// The elements of a document that is an array; `None` for any other document.
pub uninterp spec fn json_items(doc: Value) -> Option<Seq<Value>>;

/// The value of a document that is an integer within `i64`; `None` for any other document.
pub uninterp spec fn json_integer(doc: Value) -> Option<i64>;

/// The value of a document that is a boolean; `None` for any other document.
pub uninterp spec fn json_boolean(doc: Value) -> Option<bool>;

/// Whether two documents compare equal.
pub uninterp spec fn json_same(a: Value, b: Value) -> bool;

/// Calls `serde_json::from_str` at type `Value`. Claims that the outcome is a function
/// of the text alone: `Ok` with the document named by `json_parse`, or `Err` where
/// `json_parse` names none.
#[verifier::external_body]
pub(crate) fn parse_document(text: &str) -> (r: Result<Value, serde_json::Error>)
    ensures
        json_parse(text@) == (match r {
            Ok(doc) => Some(doc),
            Err(_) => None,
        }),
{
    serde_json::from_str::<Value>(text)
}

/// Calls `to_string` on a `Value`, which writes it through its `Display` impl in the
/// compact form. Claims only that the text is the one named by `json_text`.
#[verifier::external_body]
pub(crate) fn document_text(doc: &Value) -> (r: String)
    ensures
        r@ == json_text(*doc),
{
    doc.to_string()
}

/// `Value::clone`, the `Clone` that `Value` derives. Claims that the copy is the
/// document itself.
pub assume_specification[ <Value as Clone>::clone ](doc: &Value) -> (r: Value)
    ensures
        r == *doc,
;

/// Calls `==` on two `Value`s, which is the `PartialEq` that `Value` derives. Claims that
/// the outcome is the one named by `json_same`, and that a document compares equal to
/// itself, as the `Eq` that `Value` derives promises.
#[verifier::external_body]
pub(crate) fn same_document(a: &Value, b: &Value) -> (r: bool)
    ensures
        r == json_same(*a, *b),
        *a == *b ==> r,
{
    a == b
}

/// Calls `Value::get` with a string key. Claims that the outcome is the member named by
/// `json_member`.
#[verifier::external_body]
pub(crate) fn member<'a>(doc: &'a Value, key: &str) -> (r: Option<&'a Value>)
    ensures
        json_member(*doc, key@) == (match r {
            Some(found) => Some(*found),
            None => None,
        }),
{
    doc.get(key)
}

/// Calls `Value::as_str`. Claims that the outcome is the string named by `json_string`.
#[verifier::external_body]
pub(crate) fn string_of<'a>(doc: &'a Value) -> (r: Option<&'a str>)
    ensures
        json_string(*doc) == (match r {
            Some(s) => Some(s@),
            None => None,
        }),
{
    doc.as_str()
}

/// Calls `Value::as_array`. Claims that the outcome holds the elements named by
/// `json_items`.
#[verifier::external_body]
pub(crate) fn items_of<'a>(doc: &'a Value) -> (r: Option<&'a Vec<Value>>)
    ensures
        json_items(*doc) == (match r {
            Some(items) => Some(items@),
            None => None,
        }),
{
    doc.as_array()
}

/// Calls `Value::as_i64`. Claims that the outcome is the integer named by `json_integer`.
#[verifier::external_body]
pub(crate) fn integer_of(doc: &Value) -> (r: Option<i64>)
    ensures
        r == json_integer(*doc),
{
    doc.as_i64()
}

/// Calls `Value::as_bool`. Claims that the outcome is the boolean named by
/// `json_boolean`.
#[verifier::external_body]
pub(crate) fn boolean_of(doc: &Value) -> (r: Option<bool>)
    ensures
        r == json_boolean(*doc),
{
    doc.as_bool()
}

/// The string under a key of an object.
pub open spec fn json_string_member(doc: Value, key: Seq<char>) -> Option<Seq<char>> {
    match json_member(doc, key) {
        Some(found) => json_string(found),
        None => None,
    }
}

/// The integer under a key of an object.
pub open spec fn json_integer_member(doc: Value, key: Seq<char>) -> Option<i64> {
    match json_member(doc, key) {
        Some(found) => json_integer(found),
        None => None,
    }
}

/// The boolean under a key of an object.
pub open spec fn json_boolean_member(doc: Value, key: Seq<char>) -> Option<bool> {
    match json_member(doc, key) {
        Some(found) => json_boolean(found),
        None => None,
    }
}

/// The elements under a key of an object.
pub open spec fn json_items_member(doc: Value, key: Seq<char>) -> Option<Seq<Value>> {
    match json_member(doc, key) {
        Some(found) => json_items(found),
        None => None,
    }
}

/// Whether two documents count as equal: they are one document, or they compare
/// equal.
pub open spec fn json_equal(a: Value, b: Value) -> bool {
    a == b || json_same(a, b)
}

/// Every document of the sequence is a string.
pub open spec fn all_strings(items: Seq<Value>) -> bool {
    forall|i: int| 0 <= i < items.len() ==> (#[trigger] json_string(items[i])) is Some
}

/// The strings that the documents of a sequence hold, where all of them are strings.
pub open spec fn json_strings(items: Seq<Value>) -> Option<Seq<Seq<char>>> {
    if all_strings(items) {
        Some(Seq::new(items.len(), |i: int| json_string(items[i])->0))
    } else {
        None
    }
}

/// Whether a text is one JSON value.
pub fn is_well_formed(text: &str) -> (r: bool)
    ensures
        r == json_parse(text@).is_some(),
{
    parse_document(text).is_ok()
}

/// Whether two documents count as equal.
pub fn documents_equal(a: &Value, b: &Value) -> (r: bool)
    ensures
        r == json_equal(*a, *b),
{
    same_document(a, b)
}

/// The string under `key`, copied out of the document.
pub fn string_member(doc: &Value, key: &str) -> (r: Option<String>)
    ensures
        json_string_member(*doc, key@) == (match r {
            Some(s) => Some(s@),
            None => None,
        }),
{
    match member(doc, key) {
        Some(found) => match string_of(found) {
            Some(s) => Some(s.to_owned()),
            None => None,
        },
        None => None,
    }
}

/// The integer under `key`.
pub fn integer_member(doc: &Value, key: &str) -> (r: Option<i64>)
    ensures
        r == json_integer_member(*doc, key@),
{
    match member(doc, key) {
        Some(found) => integer_of(found),
        None => None,
    }
}

/// The boolean under `key`.
pub fn boolean_member(doc: &Value, key: &str) -> (r: Option<bool>)
    ensures
        r == json_boolean_member(*doc, key@),
{
    match member(doc, key) {
        Some(found) => boolean_of(found),
        None => None,
    }
}

/// The strings of a list of documents; `None` as soon as one of them is no string.
pub fn strings_of(items: &Vec<Value>) -> (r: Option<Vec<String>>)
    ensures
        json_strings(items@) == (match r {
            Some(list) => Some(list@.map_values(|s: String| s@)),
            None => None,
        }),
{
    let mut list: Vec<String> = Vec::new();
    let mut i: usize = 0;
    while i < items.len()
        invariant
            i <= items.len(),
            list.len() == i,
            forall|j: int| 0 <= j < i ==> (#[trigger] json_string(items@[j])) == Some(list@[j]@),
        decreases items.len() - i,
    {
        match string_of(&items[i]) {
            Some(s) => {
                list.push(s.to_owned());
            },
            None => {
                return None;
            },
        }
        i = i + 1;
    }
    proof {
        assert(all_strings(items@));
        assert(list@.map_values(|s: String| s@) =~= json_strings(items@)->0);
    }
    Some(list)
}

} // verus!
