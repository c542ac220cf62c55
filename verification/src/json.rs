//! JSON documents: their mathematical model, and the calls into `serde_json`
//! that read, edit and write them.
//!
//! Nothing in this file is proved. Each item states what `serde_json` does, as
//! its source shows it, and the rest of the library is verified against these
//! statements.

use serde_json::Value;
use vstd::prelude::*;

verus! {

#[verifier::external_type_specification]
#[verifier::external_body]
pub struct ExValue(serde_json::Value);

#[verifier::external_type_specification]
#[verifier::external_body]
pub struct ExNumber(serde_json::Number);

#[verifier::external_type_specification]
#[verifier::external_body]
pub struct ExJsonError(serde_json::Error);

/// A JSON document as a mathematical value.
///
/// An object is a map from member names to documents. Built without its
/// `preserve_order` feature, as it is here, `serde_json` keeps the members of
/// an object in a map ordered by name, so the map says all there is to say
/// about an object. Numbers are carried as `serde_json` holds them.
pub enum Json {
    Null,
    Bool(bool),
    Number(serde_json::Number),
    String(Seq<char>),
    Array(Seq<Json>),
    Object(Map<Seq<char>, Json>),
}

/// The document that a `serde_json::Value` holds.
pub uninterp spec fn json_of(v: Value) -> Json;

/// What `serde_json::from_slice` reads from a text: the document, or `None`
/// where it reports an error.
pub uninterp spec fn json_parse(text: Seq<u8>) -> Option<Json>;

/// What `serde_json::to_vec` writes for a document, or `None` where it
/// reports an error.
pub uninterp spec fn json_render(doc: Json) -> Option<Seq<u8>>;

/// The documents that a list of values holds, in order.
pub open spec fn jsons_of(items: Seq<Value>) -> Seq<Json> {
    items.map_values(|v: Value| json_of(v))
}

/// `doc` with the member `key` set to `member`. An object gains or replaces
/// the member, `null` becomes an object with that one member, and any other
/// document stays as it is.
pub open spec fn with_member(doc: Json, key: Seq<char>, member: Json) -> Json {
    match doc {
        Json::Object(members) => Json::Object(members.insert(key, member)),
        Json::Null => Json::Object(Map::empty().insert(key, member)),
        _ => doc,
    }
}

/// `serde_json::from_slice`, read as a `Value`: the result is a function of
/// the text alone, named `json_parse`.
#[verifier::external_body]
pub(crate) fn parse_value(content: &[u8]) -> (r: Result<Value, serde_json::Error>)
    ensures
        match r {
            Ok(v) => json_parse(content@) == Some(json_of(v)),
            Err(_) => json_parse(content@) is None,
        },
{
    serde_json::from_slice(content)
}

/// `serde_json::to_vec` on a `Value`: the result is a function of the document
/// that the value holds, named `json_render`.
#[verifier::external_body]
pub(crate) fn render_value(v: &Value) -> (r: Result<Vec<u8>, serde_json::Error>)
    ensures
        match r {
            Ok(text) => json_render(json_of(*v)) == Some(text@),
            Err(_) => json_render(json_of(*v)) is None,
        },
{
    serde_json::to_vec(v)
}

/// `Value::get_mut` with a string index: a borrow of the member `key` where
/// the value is an object that has it, else `None` and nothing changes. What
/// the caller writes through the borrow becomes that member.
#[verifier::external_body]
pub(crate) fn member_mut<'a>(v: &'a mut Value, key: &str) -> (r: Option<&'a mut Value>)
    ensures
        match r {
            Some(member) => {
                &&& json_of(*old(v)) matches Json::Object(members)
                &&& members.contains_key(key@)
                &&& json_of(*member) == members[key@]
                &&& json_of(*final(v)) == Json::Object(
                    members.insert(key@, json_of(*final(member))),
                )
            },
            None => {
                &&& !(json_of(*old(v)) matches Json::Object(members) && members.contains_key(key@))
                &&& *final(v) == *old(v)
            },
        },
{
    v.get_mut(key)
}

/// `Value::as_array_mut`: a borrow of the elements where the value is an
/// array, else `None` and nothing changes. What the caller leaves in the
/// borrowed vector becomes the array.
#[verifier::external_body]
pub(crate) fn array_mut<'a>(v: &'a mut Value) -> (r: Option<&'a mut Vec<Value>>)
    ensures
        match r {
            Some(items) => {
                &&& json_of(*old(v)) == Json::Array(jsons_of(items@))
                &&& json_of(*final(v)) == Json::Array(jsons_of(final(items)@))
            },
            None => {
                &&& !(json_of(*old(v)) is Array)
                &&& *final(v) == *old(v)
            },
        },
{
    v.as_array_mut()
}

/// Assignment through `Value`'s string index, `v[key] = member`. On an object
/// it sets the member; on `null` it first makes the value an empty object. On
/// any other value `serde_json` panics, which `requires` rules out.
#[verifier::external_body]
pub(crate) fn set_member(v: &mut Value, key: &str, member: Value)
    requires
        json_of(*old(v)) is Object || json_of(*old(v)) is Null,
    ensures
        json_of(*final(v)) == with_member(json_of(*old(v)), key@, json_of(member)),
{
    v[key] = member;
}

/// The variant `Value::String`: a value that holds the given text.
#[verifier::external_body]
pub(crate) fn string_value(text: String) -> (v: Value)
    ensures
        json_of(v) == Json::String(text@),
{
    Value::String(text)
}

/// `Value::is_object` tells whether the value holds an object.
pub assume_specification[ serde_json::Value::is_object ](v: &Value) -> (b: bool)
    ensures
        b == (json_of(*v) is Object),
;

/// `Value::is_null` tells whether the value holds `null`.
pub assume_specification[ serde_json::Value::is_null ](v: &Value) -> (b: bool)
    ensures
        b == (json_of(*v) is Null),
;

} // verus!
