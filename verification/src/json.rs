//! The boundary to the JSON crate.
//!
//! Everything in this file that is marked `external_body` is believed, not proved: each such
//! function makes one call into `serde_json`, and its contract says what that call does to a
//! value as described by [`Json`].

use vstd::prelude::*;

verus! {

/// A JSON value, as far as this crate writes them.
pub ghost enum Json {
    Text(Seq<char>),
    Number(nat),
    List(Seq<Json>),
    Object(Map<Seq<char>, Json>),
}

#[verifier::external_type_specification]
#[verifier::external_body]
pub struct ExValue(serde_json::Value);

#[verifier::external_type_specification]
#[verifier::external_body]
#[verifier::reject_recursive_types(K)]
#[verifier::reject_recursive_types(V)]
pub struct ExMap<K, V>(serde_json::Map<K, V>);

#[verifier::external_type_specification]
#[verifier::external_body]
pub struct ExError(serde_json::Error);

/// What a value of `serde_json` holds. Values of other kinds are left out: those of this crate are
/// made by the functions below alone.
pub uninterp spec fn json_model(value: serde_json::Value) -> Json;

/// The members that a map of `serde_json` holds.
pub uninterp spec fn members_model(members: serde_json::Map<String, serde_json::Value>) -> Map<
    Seq<char>,
    Json,
>;

/// The text that `serde_json` writes a value as, over several indented lines.
pub uninterp spec fn pretty_json(value: Json) -> Seq<char>;

/// What the values in `values` hold.
pub open spec fn json_models(values: Seq<serde_json::Value>) -> Seq<Json> {
    values.map_values(|value: serde_json::Value| json_model(value))
}

/// `From<String>` of `serde_json::Value`: a JSON string.
#[verifier::external_body]
pub(crate) fn text_value(text: String) -> (value: serde_json::Value)
    ensures
        json_model(value) == Json::Text(text@),
{
    serde_json::Value::from(text)
}

/// `From<usize>` of `serde_json::Value`: a JSON number.
#[verifier::external_body]
pub(crate) fn number_value(number: usize) -> (value: serde_json::Value)
    ensures
        json_model(value) == Json::Number(number as nat),
{
    serde_json::Value::from(number)
}

/// `From<Vec<Value>>` of `serde_json::Value`: a JSON array of the given values in their order.
#[verifier::external_body]
pub(crate) fn list_value(values: Vec<serde_json::Value>) -> (value: serde_json::Value)
    ensures
        json_model(value) == Json::List(json_models(values@)),
{
    serde_json::Value::from(values)
}

/// `From<Map<String, Value>>` of `serde_json::Value`: a JSON object with the given members.
#[verifier::external_body]
pub(crate) fn object_value(members: serde_json::Map<String, serde_json::Value>) -> (value:
    serde_json::Value)
    ensures
        json_model(value) == Json::Object(members_model(members)),
{
    serde_json::Value::from(members)
}

/// `serde_json::Map::new`: no members.
#[verifier::external_body]
pub(crate) fn new_members() -> (members: serde_json::Map<String, serde_json::Value>)
    ensures
        members_model(members) == (Map::<Seq<char>, Json>::empty()),
{
    serde_json::Map::new()
}

/// `serde_json::Map::insert`: sets one member, in place of an earlier one with the same key.
#[verifier::external_body]
pub(crate) fn insert_member(
    members: &mut serde_json::Map<String, serde_json::Value>,
    key: String,
    value: serde_json::Value,
)
    ensures
        members_model(*final(members)) == members_model(*old(members)).insert(
            key@,
            json_model(value),
        ),
{
    members.insert(key, value);
}

/// `serde_json::to_string_pretty` on a `serde_json::Value`. The crate documents two ways to fail:
/// an implementation of `Serialize` that decides to, and a map whose keys are not strings. A
/// `Value` has neither. Its members are kept sorted by key, so the text depends on what the value
/// holds alone.
#[verifier::external_body]
pub(crate) fn value_text(value: &serde_json::Value) -> (written: Result<String, serde_json::Error>)
    ensures
        written is Ok,
        written->Ok_0@ == pretty_json(json_model(*value)),
{
    serde_json::to_string_pretty(value)
}

} // verus!
