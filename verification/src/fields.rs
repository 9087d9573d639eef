//! Reading the members of a JSON object, and reading every item of a JSON
//! array.

use crate::fault::MalformedView;
use crate::json::{as_integer, as_text, i64_of, json_tree, member, member_of, text_of, JsonTree};
use serde_json::Value;
use vstd::prelude::*;

verus! {

/// The string under `key` in the object `t`.
pub open spec fn text_at(t: JsonTree, key: Seq<char>) -> Option<Seq<char>> {
    match member_of(t, key) {
        Some(m) => text_of(m),
        None => None,
    }
}

/// The member under `second` of the member under `first` of `t`.
pub open spec fn member_at(t: JsonTree, first: Seq<char>, second: Seq<char>) -> Option<JsonTree> {
    match member_of(t, first) {
        Some(m) => member_of(m, second),
        None => None,
    }
}

/// The string under `second` in the object under `first` in `t`.
pub open spec fn text_in(t: JsonTree, first: Seq<char>, second: Seq<char>) -> Option<Seq<char>> {
    match member_at(t, first, second) {
        Some(m) => text_of(m),
        None => None,
    }
}

/// Reads the member under `second` of the member under `first`.
pub(crate) fn nested<'a>(v: &'a Value, first: &str, second: &str) -> (r: Option<&'a Value>)
    ensures
        match r {
            Some(m) => member_at(json_tree(*v), first@, second@) == Some(json_tree(*m)),
            None => member_at(json_tree(*v), first@, second@) is None,
        },
{
    match member(v, first) {
        Some(m) => member(m, second),
        None => None,
    }
}

/// Reads the string under `key`.
pub(crate) fn text_field<'a>(v: &'a Value, key: &str) -> (r: Option<&'a str>)
    ensures
        match r {
            Some(s) => text_at(json_tree(*v), key@) == Some(s@),
            None => text_at(json_tree(*v), key@) is None,
        },
{
    match member(v, key) {
        Some(m) => as_text(m),
        None => None,
    }
}

/// Reads the string under `second` in the object under `first`.
pub(crate) fn nested_text<'a>(v: &'a Value, first: &str, second: &str) -> (r: Option<&'a str>)
    ensures
        match r {
            Some(s) => text_in(json_tree(*v), first@, second@) == Some(s@),
            None => text_in(json_tree(*v), first@, second@) is None,
        },
{
    match nested(v, first, second) {
        Some(m) => as_text(m),
        None => None,
    }
}

/// The integer under `key` in the object `t`, where it fits in 64 signed
/// bits.
pub open spec fn integer_at(t: JsonTree, key: Seq<char>) -> Option<i64> {
    match member_of(t, key) {
        Some(m) => i64_of(m),
        None => None,
    }
}

/// Reads the integer under `key`.
pub(crate) fn integer_field(v: &Value, key: &str) -> (r: Option<i64>)
    ensures
        r == integer_at(json_tree(*v), key@),
{
    match member(v, key) {
        Some(m) => as_integer(m),
        None => None,
    }
}

/// The results of `f` on every item, in order, or the error of the first
/// item on which `f` fails.
pub open spec fn try_each<A>(
    items: Seq<JsonTree>,
    f: spec_fn(JsonTree) -> Result<A, MalformedView>,
) -> Result<Seq<A>, MalformedView>
    decreases items.len(),
{
    if items.len() == 0 {
        Ok(Seq::empty())
    } else {
        match try_each(items.drop_last(), f) {
            Err(e) => Err(e),
            Ok(done) => match f(items.last()) {
                Err(e) => Err(e),
                Ok(a) => Ok(done.push(a)),
            },
        }
    }
}

/// Where `try_each` succeeds, it holds one result for each item, at the
/// item's place.
pub proof fn lemma_try_each_ok<A>(
    items: Seq<JsonTree>,
    f: spec_fn(JsonTree) -> Result<A, MalformedView>,
)
    requires
        try_each(items, f) is Ok,
    ensures
        try_each(items, f)->Ok_0.len() == items.len(),
        forall|i: int|
            0 <= i < items.len() ==> f(items[i]) == Ok::<A, MalformedView>(
                #[trigger] try_each(items, f)->Ok_0[i],
            ),
    decreases items.len(),
{
    if items.len() > 0 {
        lemma_try_each_ok(items.drop_last(), f);
    }
}

/// An error among the first `k` items is the error of the whole.
pub proof fn lemma_try_each_err<A>(
    items: Seq<JsonTree>,
    f: spec_fn(JsonTree) -> Result<A, MalformedView>,
    k: int,
)
    requires
        0 <= k <= items.len(),
        try_each(items.take(k), f) is Err,
    ensures
        try_each(items, f) == try_each(items.take(k), f),
    decreases items.len() - k,
{
    if k < items.len() {
        assert(items.take(k + 1).drop_last() == items.take(k));
        lemma_try_each_err(items, f, k + 1);
    } else {
        assert(items.take(k) == items);
    }
}

} // verus!
