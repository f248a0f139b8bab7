//! Reading and amending JSON text frames. Everything here goes through
//! serde_json; the results are named by the uninterpreted functions below,
//! which depend on the text (and key) alone.
use vstd::prelude::*;

verus! {

#[verifier::external_type_specification]
#[verifier::external_body]
pub struct ExJsonValue(serde_json::Value);

/// Relies on `Value`'s derived `Clone`, so that the data types holding raw
/// JSON can be cloned; nothing is claimed of the copy.
pub assume_specification[ <serde_json::Value as Clone>::clone ](v: &serde_json::Value) -> serde_json::Value;

/// Whether serde_json reads `text` as one JSON value.
pub uninterp spec fn json_is_valid(text: Seq<char>) -> bool;

/// Whether `text` is a JSON object that has a member named `key`.
pub uninterp spec fn json_has_member(text: Seq<char>, key: Seq<char>) -> bool;

/// The member `key` of the JSON object `text`, when it is an integer in `u64` range.
pub uninterp spec fn json_u64_member(text: Seq<char>, key: Seq<char>) -> Option<u64>;

/// The member `key` of the JSON object `text`, when it is an integer in `i64` range.
pub uninterp spec fn json_i64_member(text: Seq<char>, key: Seq<char>) -> Option<i64>;

/// The member `key` of the JSON object `text`, when it is a string.
pub uninterp spec fn json_str_member(text: Seq<char>, key: Seq<char>) -> Option<Seq<char>>;

/// Whether `text` is a JSON object.
pub uninterp spec fn json_is_object(text: Seq<char>) -> bool;

/// The compact JSON text of the object with the one member `key`, the array
/// of strings `values`.
pub uninterp spec fn json_object_with_strings(key: Seq<char>, values: Seq<Seq<char>>) -> Seq<char>;

/// The JSON object `text` with member `key` set to the string `value`,
/// printed compactly; `None` when `text` is not a JSON object.
pub uninterp spec fn json_set_str_member(text: Seq<char>, key: Seq<char>, value: Seq<char>) -> Option<
    Seq<char>,
>;

/// The JSON object `text` with member `key` set to the number `value`, printed
/// compactly; `None` when `text` is not a JSON object.
pub uninterp spec fn json_set_u64_member(text: Seq<char>, key: Seq<char>, value: u64) -> Option<
    Seq<char>,
>;

/// Relies on serde_json::from_str into a `Value`: succeeds exactly on JSON text.
#[verifier::external_body]
pub(crate) fn is_json(text: &str) -> (r: bool)
    ensures
        r == json_is_valid(text@),
{
    serde_json::from_str::<serde_json::Value>(text).is_ok()
}

/// Relies on serde_json::from_str and `Value::get`: whether the object has the member.
#[verifier::external_body]
pub(crate) fn has_member(text: &str, key: &str) -> (r: bool)
    ensures
        r == json_has_member(text@, key@),
{
    match serde_json::from_str::<serde_json::Value>(text) {
        Ok(v) => v.get(key).is_some(),
        Err(_) => false,
    }
}

/// Relies on serde_json::from_str, `Value::get` and `Value::as_u64`.
#[verifier::external_body]
pub(crate) fn u64_member(text: &str, key: &str) -> (r: Option<u64>)
    ensures
        r == json_u64_member(text@, key@),
{
    serde_json::from_str::<serde_json::Value>(text).ok()?.get(key)?.as_u64()
}

/// Relies on serde_json::from_str, `Value::get` and `Value::as_i64`.
#[verifier::external_body]
pub(crate) fn i64_member(text: &str, key: &str) -> (r: Option<i64>)
    ensures
        r == json_i64_member(text@, key@),
{
    serde_json::from_str::<serde_json::Value>(text).ok()?.get(key)?.as_i64()
}

/// Relies on serde_json::from_str, `Value::get` and `Value::as_str`.
#[verifier::external_body]
pub(crate) fn str_member(text: &str, key: &str) -> (r: Option<String>)
    ensures
        r matches Some(s) ==> json_str_member(text@, key@) == Some(s@),
        r is None ==> json_str_member(text@, key@) is None,
{
    serde_json::from_str::<serde_json::Value>(text).ok()?.get(key)?.as_str().map(str::to_string)
}

/// Relies on serde_json::from_str, `Map::insert` on the object and `Value`'s
/// compact printing.
#[verifier::external_body]
pub(crate) fn set_u64_member(text: &str, key: &str, value: u64) -> (r: Option<String>)
    ensures
        r matches Some(s) ==> json_set_u64_member(text@, key@, value) == Some(s@),
        r is None ==> json_set_u64_member(text@, key@, value) is None,
        r is Some <==> json_is_object(text@),
        r matches Some(s) ==> json_is_object(s@),
{
    let mut v = serde_json::from_str::<serde_json::Value>(text).ok()?;
    v.as_object_mut()?.insert(key.to_string(), serde_json::Value::from(value));
    Some(v.to_string())
}

/// Relies on serde_json::from_str, `Map::insert` on the object and `Value`'s
/// compact printing.
#[verifier::external_body]
pub(crate) fn set_str_member(text: &str, key: &str, value: &str) -> (r: Option<String>)
    ensures
        r matches Some(s) ==> json_set_str_member(text@, key@, value@) == Some(s@),
        r is None ==> json_set_str_member(text@, key@, value@) is None,
        r is Some <==> json_is_object(text@),
        r matches Some(s) ==> json_is_object(s@),
{
    let mut v = serde_json::from_str::<serde_json::Value>(text).ok()?;
    v.as_object_mut()?.insert(key.to_string(), serde_json::Value::from(value));
    Some(v.to_string())
}

/// Relies on serde_json: a `Map` holding the one array member, printed
/// compactly as an object.
#[verifier::external_body]
pub(crate) fn object_with_strings(key: &str, values: &Vec<String>) -> (r: String)
    ensures
        r@ == json_object_with_strings(key@, values@.map_values(|t: String| t@)),
        json_is_object(r@),
{
    let mut map = serde_json::Map::new();
    map.insert(key.to_string(), serde_json::Value::from(values.clone()));
    serde_json::Value::Object(map).to_string()
}

} // verus!
