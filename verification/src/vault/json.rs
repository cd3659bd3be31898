//! JSON objects as `serde_json` holds them.
//!
//! The keeper fills such an object member by member and never looks inside:
//! what it knows of one is what the operations below say.

use vstd::prelude::*;

verus! {

/// `serde_json::Map`: the members of a JSON object, by name.
#[verifier::external_type_specification]
#[verifier::external_body]
#[verifier::reject_recursive_types(K)]
#[verifier::reject_recursive_types(V)]
pub struct ExJsonObject<K, V>(serde_json::Map<K, V>);

/// `serde_json::Value`: any JSON value.
#[verifier::external_type_specification]
#[verifier::external_body]
pub struct ExJsonValue(serde_json::Value);

/// What a JSON object holds: for the name of each member its text, where the
/// member's value is a JSON string, and `None` where it is anything else.
pub uninterp spec fn json_members(object: serde_json::Map<String, serde_json::Value>) -> Map<
    Seq<char>,
    Option<Seq<char>>,
>;

/// No members at all.
pub open spec fn no_members() -> Map<Seq<char>, Option<Seq<char>>> {
    Map::empty()
}

/// Calls `serde_json::Map::new`, which makes a new empty map.
#[verifier::external_body]
pub(crate) fn empty_object() -> (made: serde_json::Map<String, serde_json::Value>)
    ensures
        json_members(made) == no_members(),
{
    serde_json::Map::new()
}

/// Calls `serde_json::Map::insert` with the name and the text as a JSON
/// string.  The member is added, or, where the name was present, its value is
/// replaced; the other members stay as they were.
#[verifier::external_body]
pub(crate) fn put_text(
    object: &mut serde_json::Map<String, serde_json::Value>,
    name: &str,
    text: &str,
)
    ensures
        json_members(*final(object)) == json_members(*old(object)).insert(name@, Some(text@)),
{
    object.insert(name.to_string(), serde_json::Value::String(text.to_string()));
}

} // verus!
