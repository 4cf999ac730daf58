//! JSON values, parsed and rendered by `serde_json`. Nothing here is proved:
//! each contract states what the named function of that crate is taken to do.

use vstd::prelude::*;

verus! {

/// A JSON value. What it holds is read through the functions below.
#[verifier::external_type_specification]
#[verifier::external_body]
pub struct ExJsonValue(serde_json::Value);

/// Why a text is not JSON.
#[verifier::external_type_specification]
#[verifier::external_body]
pub struct ExJsonError(serde_json::Error);

/// What a JSON value holds.
pub enum JsonTree {
    Null,
    Bool(bool),
    /// A number: the integer it is, where it is one that fits 64 signed bits,
    /// and the text that stands for it in JSON.
    Number { integer: Option<i64>, text: Seq<char> },
    String(Seq<char>),
    Array(Seq<JsonTree>),
    Object(Map<Seq<char>, JsonTree>),
}

/// What `value` holds.
pub uninterp spec fn json_tree(value: serde_json::Value) -> JsonTree;

/// What `serde_json::from_str` reads out of `text`: the value it holds, or
/// nothing where the text is not JSON.
pub uninterp spec fn json_parse(text: Seq<char>) -> Option<JsonTree>;

/// The compact JSON text that `serde_json` writes for a value.
pub uninterp spec fn json_text(tree: JsonTree) -> Seq<char>;

/// The member of an object under `key`; `Null` where `tree` is no object or
/// has no such member.
pub open spec fn member_of(tree: JsonTree, key: Seq<char>) -> JsonTree {
    match tree {
        JsonTree::Object(members) => if members.dom().contains(key) {
            members[key]
        } else {
            JsonTree::Null
        },
        _ => JsonTree::Null,
    }
}

/// The member of an object under `key`, if `tree` is an object that has
/// one.
pub open spec fn member_if_present(tree: JsonTree, key: Seq<char>) -> Option<JsonTree> {
    match tree {
        JsonTree::Object(members) => if members.dom().contains(key) {
            Some(members[key])
        } else {
            None
        },
        _ => None,
    }
}

/// What each of `values` holds, in order.
pub open spec fn trees_of(values: Seq<serde_json::Value>) -> Seq<JsonTree> {
    values.map_values(|v: serde_json::Value| json_tree(v))
}

/// `entries` lists the members of an object, each once.
pub open spec fn lists_members(
    entries: Seq<(&String, &serde_json::Value)>,
    members: Map<Seq<char>, JsonTree>,
) -> bool {
    &&& forall|i: int, j: int|
        0 <= i < j < entries.len() ==> (#[trigger] entries[i]).0@ != (#[trigger] entries[j]).0@
    &&& forall|i: int|
        0 <= i < entries.len() ==> members.dom().contains((#[trigger] entries[i]).0@)
            && members[entries[i].0@] == json_tree(*entries[i].1)
    &&& forall|key: Seq<char>| #[trigger]
        members.dom().contains(key) ==> exists|i: int|
            0 <= i < entries.len() && (#[trigger] entries[i]).0@ == key
}

/// Calls `serde_json::from_str` for a `Value`. Claimed: what comes back
/// depends on the text alone.
#[verifier::external_body]
pub(crate) fn parse_json(text: &str) -> (parsed: Result<serde_json::Value, serde_json::Error>)
    ensures
        match parsed {
            Ok(value) => json_parse(text@) == Some(json_tree(value)),
            Err(_) => json_parse(text@) is None,
        },
{
    serde_json::from_str::<serde_json::Value>(text)
}

/// Indexes a `Value` by a string key. Claimed: the member under that key
/// comes back where the value is an object that has it, and `Null` otherwise.
#[verifier::external_body]
pub(crate) fn json_member<'a>(value: &'a serde_json::Value, key: &str) -> (member:
    &'a serde_json::Value)
    ensures
        json_tree(*member) == member_of(json_tree(*value), key@),
{
    &value[key]
}

/// Calls `Value::get` with a string key. Claimed: the member under that key
/// comes back where the value is an object that has it, and nothing
/// otherwise.
#[verifier::external_body]
pub(crate) fn json_get<'a>(value: &'a serde_json::Value, key: &str) -> (member: Option<
    &'a serde_json::Value,
>)
    ensures
        match member_if_present(json_tree(*value), key@) {
            Some(tree) => member matches Some(found) && json_tree(*found) == tree,
            None => member is None,
        },
{
    value.get(key)
}

/// Calls `to_string` on a `Value`. Claimed: the text depends on what the
/// value holds alone.
#[verifier::external_body]
pub(crate) fn json_render(value: &serde_json::Value) -> (text: String)
    ensures
        text@ == json_text(json_tree(*value)),
{
    value.to_string()
}

/// Calls `Value::as_object` and walks the map. Claimed: an object gives
/// its members, each once, in no stated order; any other value gives nothing.
#[verifier::external_body]
pub(crate) fn json_members<'a>(value: &'a serde_json::Value) -> (entries: Option<
    Vec<(&'a String, &'a serde_json::Value)>,
>)
    ensures
        match json_tree(*value) {
            JsonTree::Object(members) => entries matches Some(list) && lists_members(
                list@,
                members,
            ),
            _ => entries is None,
        },
{
    value.as_object().map(|members| members.iter().collect())
}

/// `Value::as_array`: the items of an array, and nothing for any other value.
pub assume_specification[ serde_json::Value::as_array ](value: &serde_json::Value) -> (items:
    Option<&Vec<serde_json::Value>>)
    ensures
        match json_tree(*value) {
            JsonTree::Array(trees) => items matches Some(list) && trees_of(list@) == trees,
            _ => items is None,
        },
;

/// `Value::as_str`: the text of a string, and nothing for any other value.
pub assume_specification[ serde_json::Value::as_str ](value: &serde_json::Value) -> (text: Option<
    &str,
>)
    ensures
        match json_tree(*value) {
            JsonTree::String(chars) => text matches Some(t) && t@ == chars,
            _ => text is None,
        },
;

/// `Value::as_bool`: the truth value of a boolean, and nothing for any other
/// value.
pub assume_specification[ serde_json::Value::as_bool ](value: &serde_json::Value) -> (truth:
    Option<bool>)
    ensures
        match json_tree(*value) {
            JsonTree::Bool(b) => truth == Some(b),
            _ => truth is None,
        },
;

/// `Value::is_object`: whether the value is an object.
pub assume_specification[ serde_json::Value::is_object ](value: &serde_json::Value) -> (object:
    bool)
    ensures
        object == (json_tree(*value) is Object),
;

/// `Value::is_null`: whether the value is `Null`.
pub assume_specification[ serde_json::Value::is_null ](value: &serde_json::Value) -> (null: bool)
    ensures
        null == (json_tree(*value) is Null),
;

/// `Value::as_i64`: the integer that a number is, where it is one that fits
/// 64 signed bits, and nothing for any other value.
pub assume_specification[ serde_json::Value::as_i64 ](value: &serde_json::Value) -> (integer:
    Option<i64>)
    ensures
        match json_tree(*value) {
            JsonTree::Number { integer: known, .. } => integer == known,
            _ => integer is None,
        },
;

} // verus!
