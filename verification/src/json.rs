//! JSON objects and values as `serde_json` holds them.

use vstd::prelude::*;
use vstd::string::*;

verus! {

/// `serde_json::Value`: a JSON value, carried through unread.
#[verifier::external_type_specification]
#[verifier::external_body]
pub struct ExValue(serde_json::Value);

/// `serde_json::Error`: why a text is not JSON.
#[verifier::external_type_specification]
#[verifier::external_body]
pub struct ExError(serde_json::Error);

/// `serde_json::Map`: the members of a JSON object.
#[verifier::external_type_specification]
#[verifier::external_body]
#[verifier::reject_recursive_types(K)]
#[verifier::reject_recursive_types(V)]
pub struct ExMap<K, V>(serde_json::Map<K, V>);

/// A JSON object.
pub type JsonObject = serde_json::Map<String, serde_json::Value>;

/// The members of a JSON object, by name.
pub uninterp spec fn members(
    object: serde_json::Map<String, serde_json::Value>,
) -> Map<Seq<char>, serde_json::Value>;

/// The JSON array of the strings `items`, in their order.
pub uninterp spec fn string_array(items: Seq<Seq<char>>) -> serde_json::Value;

/// The value that a JSON text denotes, or nothing where `serde_json` does not accept the text.
pub uninterp spec fn parsed_value(text: Seq<char>) -> Option<serde_json::Value>;

/// Calls `serde_json::Map::insert`: the object holds `value` under `key` afterwards, in place of
/// what it may have held there, and its other members as before.
#[verifier::external_body]
fn insert_member(object: &mut JsonObject, key: &str, value: serde_json::Value)
    ensures
        members(*final(object)) == members(*old(object)).insert(key@, value),
{
    object.insert(key.to_string(), value);
}

/// Calls `serde_json::Value::from` on a vector of strings, which gives the JSON array of these
/// strings: a function of the strings and their order alone.
#[verifier::external_body]
fn array_of(items: Vec<String>) -> (value: serde_json::Value)
    ensures
        value == string_array(items.deep_view()),
{
    serde_json::Value::from(items)
}

/// Calls `serde_json::from_str` for a `serde_json::Value`. Whether the text is accepted, and which
/// value it denotes, depends on the text alone; the JSON grammar is not restated here. Nothing is
/// said of the error that a refused text gives.
#[verifier::external_body]
pub(crate) fn parse_value(text: &str) -> (value: Result<serde_json::Value, serde_json::Error>)
    ensures
        match value {
            Ok(v) => parsed_value(text@) == Some(v),
            Err(_) => parsed_value(text@) is None,
        },
{
    serde_json::from_str(text)
}

/// `object` with `list` under `key`, where there is a list.
pub open spec fn with_list(
    object: Map<Seq<char>, serde_json::Value>,
    key: Seq<char>,
    list: Option<Seq<Seq<char>>>,
) -> Map<Seq<char>, serde_json::Value> {
    match list {
        Some(items) => object.insert(key, string_array(items)),
        None => object,
    }
}

/// Puts a list of strings into a JSON object, if there is one.
pub fn set_list(object: &mut JsonObject, key: &str, list: Option<Vec<String>>)
    ensures
        members(*final(object)) == with_list(members(*old(object)), key@, list.deep_view()),
{
    match list {
        Some(items) => {
            let value = array_of(items);
            insert_member(object, key, value);
        },
        None => {},
    }
}

/// A list comes to stand under its key as the array of its strings, whatever stood there before,
/// and every other member stays. Without a list the object stays as it is.
pub proof fn with_list_members(
    object: Map<Seq<char>, serde_json::Value>,
    key: Seq<char>,
    items: Seq<Seq<char>>,
    other: Seq<char>,
)
    ensures
        with_list(object, key, Some(items)).contains_key(key),
        with_list(object, key, Some(items))[key] == string_array(items),
        other != key ==> with_list(object, key, Some(items)).contains_key(other)
            == object.contains_key(other) && with_list(object, key, Some(items))[other]
            == object[other],
        with_list(object, key, None) == object,
{
}

} // verus!
