use vstd::prelude::*;

verus! {

/// A JSON value; the library carries tool arguments and schemas through
/// without reading them.
#[verifier::external_type_specification]
#[verifier::external_body]
pub struct ExJsonValue(serde_json::Value);

} // verus!

verus! {

/// Relies on `chrono::Utc::now` and `DateTime::timestamp_millis`: the time
/// now, in milliseconds since the Unix epoch. Nothing is promised of it.
#[verifier::external_body]
pub(crate) fn now_millis() -> (r: i64) {
    chrono::Utc::now().timestamp_millis()
}

/// Relies on `uuid::Uuid::new_v4` and its `Display`: a fresh random
/// identifier in hyphenated form, which has 36 characters.
#[verifier::external_body]
pub(crate) fn fresh_id() -> (r: String)
    ensures
        r@.len() == 36,
{
    uuid::Uuid::new_v4().to_string()
}

} // verus!

verus! {

/// Relies on `serde_json::Value::String`: the JSON string `s`.
#[verifier::external_body]
pub(crate) fn json_text(s: String) -> (r: serde_json::Value) {
    serde_json::Value::String(s)
}

/// Relies on `serde_json::Value::Array`: the JSON array of `items`, in order.
#[verifier::external_body]
pub(crate) fn json_list(items: Vec<serde_json::Value>) -> (r: serde_json::Value) {
    serde_json::Value::Array(items)
}

/// Relies on `serde_json::Map`'s `FromIterator` and `Value::Object`: the JSON
/// object with these members.
#[verifier::external_body]
pub(crate) fn json_object(members: Vec<(String, serde_json::Value)>) -> (r: serde_json::Value) {
    serde_json::Value::Object(members.into_iter().collect())
}

} // verus!
