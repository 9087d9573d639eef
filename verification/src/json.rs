//! The JSON values that the discussion API answers with.
//!
//! A response is held as a `serde_json::Value`. Verified code never looks
//! inside one: it reads it through the accessors below, whose contracts are
//! stated over [`JsonTree`], the mathematical content of a value.

use serde_json::Value;
use vstd::prelude::*;

verus! {

/// What a JSON value holds.
pub enum JsonTree {
    Null,
    Bool(bool),
    /// A number that is held as an integer.
    Integer(int),
    /// A number that is held in floating point.
    Decimal,
    Text(Seq<char>),
    Array(Seq<JsonTree>),
    Object(Map<Seq<char>, JsonTree>),
}

/// `serde_json::Value`, held as it is and read only through the accessors
/// of this file.
#[verifier::external_type_specification]
#[verifier::external_body]
pub struct ExValue(serde_json::Value);

/// What a `serde_json::Value` holds: null, a boolean, a number, a string, an
/// array with the contents of its items in their order, or an object with
/// the content of each member under the member's key.
pub uninterp spec fn json_tree(v: Value) -> JsonTree;

/// The member of `t` under `key`, where `t` is an object that has one.
pub open spec fn member_of(t: JsonTree, key: Seq<char>) -> Option<JsonTree> {
    match t {
        JsonTree::Object(members) => if members.contains_key(key) {
            Some(members[key])
        } else {
            None
        },
        _ => None,
    }
}

/// The characters of `t`, where `t` is a string.
pub open spec fn text_of(t: JsonTree) -> Option<Seq<char>> {
    match t {
        JsonTree::Text(s) => Some(s),
        _ => None,
    }
}

/// The truth value of `t`, where `t` is a boolean.
pub open spec fn bool_of(t: JsonTree) -> Option<bool> {
    match t {
        JsonTree::Bool(b) => Some(b),
        _ => None,
    }
}

/// The value of `t`, where `t` is an integer that fits in 64 signed bits.
pub open spec fn i64_of(t: JsonTree) -> Option<i64> {
    match t {
        JsonTree::Integer(n) => if i64::MIN <= n <= i64::MAX {
            Some(n as i64)
        } else {
            None
        },
        _ => None,
    }
}

/// The items of `t`, where `t` is an array.
pub open spec fn items_of(t: JsonTree) -> Option<Seq<JsonTree>> {
    match t {
        JsonTree::Array(items) => Some(items),
        _ => None,
    }
}

/// The contents of a sequence of values, item by item.
pub open spec fn json_trees(vs: Seq<Value>) -> Seq<JsonTree> {
    Seq::new(vs.len(), |i: int| json_tree(vs[i]))
}

/// `serde_json::Value::get` with a string key: the member under `key` if
/// the value is an object that has that key, and nothing otherwise.
#[verifier::external_body]
pub(crate) fn member<'a>(v: &'a Value, key: &str) -> (r: Option<&'a Value>)
    ensures
        match r {
            Some(m) => member_of(json_tree(*v), key@) == Some(json_tree(*m)),
            None => member_of(json_tree(*v), key@) is None,
        },
{
    v.get(key)
}

/// `serde_json::Value::as_str`: the string if the value is one, and
/// nothing otherwise.
#[verifier::external_body]
pub(crate) fn as_text<'a>(v: &'a Value) -> (r: Option<&'a str>)
    ensures
        match r {
            Some(s) => text_of(json_tree(*v)) == Some(s@),
            None => text_of(json_tree(*v)) is None,
        },
{
    v.as_str()
}

/// `serde_json::Value::as_bool`: the boolean if the value is one, and
/// nothing otherwise.
#[verifier::external_body]
pub(crate) fn as_flag(v: &Value) -> (r: Option<bool>)
    ensures
        r == bool_of(json_tree(*v)),
{
    v.as_bool()
}

/// `serde_json::Value::as_i64`: the number if the value is an integer
/// between `i64::MIN` and `i64::MAX`, and nothing otherwise.
#[verifier::external_body]
pub(crate) fn as_integer(v: &Value) -> (r: Option<i64>)
    ensures
        r == i64_of(json_tree(*v)),
{
    v.as_i64()
}

/// `serde_json::Value::as_array`: the items, in their order, if the value is
/// an array, and nothing otherwise.
#[verifier::external_body]
pub(crate) fn as_items<'a>(v: &'a Value) -> (r: Option<&'a Vec<Value>>)
    ensures
        match r {
            Some(items) => items_of(json_tree(*v)) == Some(json_trees(items@)),
            None => items_of(json_tree(*v)) is None,
        },
{
    v.as_array()
}

} // verus!
