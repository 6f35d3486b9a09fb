//! JSON documents. The documents themselves are `serde_json` values; this
//! module gives them a mathematical model and states, without proof, what
//! the `serde_json` operations used by the library do to that model.

use vstd::prelude::*;

verus! {

#[verifier::external_type_specification]
#[verifier::external_body]
pub struct ExValue(serde_json::Value);

#[verifier::external_type_specification]
#[verifier::external_body]
pub struct ExNumber(serde_json::Number);

#[verifier::external_type_specification]
#[verifier::external_body]
pub struct ExError(serde_json::Error);

/// The content of a JSON document. An object is a map from keys to
/// documents: its members have no order and no key occurs twice.
pub enum JsonModel {
    Null,
    Bool(bool),
    Number(serde_json::Number),
    Text(Seq<char>),
    Array(Seq<JsonModel>),
    Object(Map<Seq<char>, JsonModel>),
}

/// The content of a `serde_json::Value`.
pub uninterp spec fn model_of(value: serde_json::Value) -> JsonModel;

/// The document that `serde_json::from_slice` reads from the bytes of a
/// text, or `None` where it reports an error.
pub uninterp spec fn parsed(bytes: Seq<u8>) -> Option<JsonModel>;

/// The compact text that `serde_json` writes for a document, the members
/// of each object in the order of their keys.
pub uninterp spec fn rendered(document: JsonModel) -> Seq<char>;

/// The number that `serde_json` makes of an unsigned integer.
pub uninterp spec fn unsigned_number(n: u64) -> serde_json::Number;

/// The contents of a list of values, in order.
pub open spec fn models_of(values: Seq<serde_json::Value>) -> Seq<JsonModel> {
    values.map_values(|value: serde_json::Value| model_of(value))
}

/// `serde_json::from_slice`, reading a `Value`. Trusted: the value read, or
/// the fact that reading failed, depends on the bytes alone.
#[verifier::external_body]
pub(crate) fn parse_value(bytes: &[u8]) -> (outcome: Result<serde_json::Value, serde_json::Error>)
    ensures
        match outcome {
            Ok(value) => parsed(bytes@) == Some(model_of(value)),
            Err(_) => parsed(bytes@) is None,
        },
{
    serde_json::from_slice::<serde_json::Value>(bytes)
}

/// `Value`'s `Display`, which writes the compact form. Trusted: the text
/// depends on the content of the value alone.
#[verifier::external_body]
pub(crate) fn render_value(value: &serde_json::Value) -> (text: String)
    ensures
        text@ == rendered(model_of(*value)),
{
    value.to_string()
}

/// `Value::get` with a string key. Trusted: it finds the member of that key
/// in an object, and nothing in any other value.
#[verifier::external_body]
pub(crate) fn value_member<'a>(value: &'a serde_json::Value, key: &str) -> (member: Option<
    &'a serde_json::Value,
>)
    ensures
        match member {
            Some(found) => model_of(*value) matches JsonModel::Object(members)
                && members.contains_key(key@) && members[key@] == model_of(*found),
            None => !(model_of(*value) matches JsonModel::Object(members) && members.contains_key(
                key@,
            )),
        },
{
    value.get(key)
}

/// `Value::as_array`. Trusted: it hands out the items of an array, and
/// nothing of any other value.
#[verifier::external_body]
pub(crate) fn value_items(value: &serde_json::Value) -> (items: Option<&Vec<serde_json::Value>>)
    ensures
        match items {
            Some(list) => model_of(*value) == JsonModel::Array(models_of(list@)),
            None => !(model_of(*value) is Array),
        },
{
    value.as_array()
}

/// `Value::as_str`. Trusted: it hands out the text of a string, and nothing
/// of any other value.
#[verifier::external_body]
pub(crate) fn value_text(value: &serde_json::Value) -> (text: Option<&str>)
    ensures
        match text {
            Some(held) => model_of(*value) == JsonModel::Text(held@),
            None => !(model_of(*value) is Text),
        },
{
    value.as_str()
}

/// `Value::from` on a string slice. Trusted: the value is the string with
/// that text.
#[verifier::external_body]
pub(crate) fn text_value(text: &str) -> (value: serde_json::Value)
    ensures
        model_of(value) == JsonModel::Text(text@),
{
    serde_json::Value::from(text)
}

/// The variant `Value::Number` around a copy of the number. Trusted: the
/// value is that number.
#[verifier::external_body]
pub(crate) fn number_value(number: &serde_json::Number) -> (value: serde_json::Value)
    ensures
        model_of(value) == JsonModel::Number(*number),
{
    serde_json::Value::Number(number.clone())
}

/// `Value::from` on a `u32`. Trusted: the value is a number that depends on
/// the integer alone.
#[verifier::external_body]
pub(crate) fn unsigned_value(n: u32) -> (value: serde_json::Value)
    ensures
        model_of(value) == JsonModel::Number(unsigned_number(n as u64)),
{
    serde_json::Value::from(n)
}

/// The variant `Value::Array`. Trusted: the value is the array of the
/// items, in their order.
#[verifier::external_body]
pub(crate) fn array_value(items: Vec<serde_json::Value>) -> (value: serde_json::Value)
    ensures
        model_of(value) == JsonModel::Array(models_of(items@)),
{
    serde_json::Value::Array(items)
}

/// The variant `Value::Object` around `Map::new`. Trusted: the value is
/// the object without members.
#[verifier::external_body]
pub(crate) fn empty_object() -> (value: serde_json::Value)
    ensures
        model_of(value) == JsonModel::Object(Map::<Seq<char>, JsonModel>::empty()),
{
    serde_json::Value::Object(serde_json::Map::new())
}

/// `Map::insert` on the members of an object. Trusted: the member is set
/// under the key, in place of an earlier member of that key, and the other
/// members stay.
#[verifier::external_body]
pub(crate) fn with_member(object: serde_json::Value, key: &str, member: serde_json::Value) -> (value:
    serde_json::Value)
    requires
        model_of(object) is Object,
    ensures
        model_of(value) == JsonModel::Object(
            model_of(object)->Object_0.insert(key@, model_of(member)),
        ),
{
    match object {
        serde_json::Value::Object(mut members) => {
            members.insert(key.to_owned(), member);
            serde_json::Value::Object(members)
        },
        other => other,
    }
}

} // verus!
