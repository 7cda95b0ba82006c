//! JSON values, as the tracker takes and gives them. The library fills and
//! reads them through the few operations below and never looks inside.

use crate::cache::{pairs_of, put, Pairs, Ticket};
use json::JsonValue;
use vstd::prelude::*;

verus! {

/// `JsonValue` of json, taken as it is: what a value holds is known only
/// through the names below.
#[verifier::external_type_specification]
#[verifier::external_body]
pub struct ExJsonValue(JsonValue);

/// The members of a JSON object: each key with what `Display` writes for its
/// value, in the order in which the keys came in. A value that is no object
/// has none.
pub uninterp spec fn members(value: JsonValue) -> Pairs;

/// Whether a JSON value is `null`.
pub uninterp spec fn is_null(value: JsonValue) -> bool;

/// What `Display` writes for `value[outer][inner]`: the text of a string as
/// it is, and `null` where there is no such member.
pub uninterp spec fn text_at(value: JsonValue, outer: Seq<char>, inner: Seq<char>) -> Seq<char>;

/// For each member of the array `value[list]`, in order, what `Display`
/// writes for its `[id]` and for its `[outer][inner]`. Nothing where
/// `value[list]` is no array.
pub uninterp spec fn listed(
    value: JsonValue,
    list: Seq<char>,
    id: Seq<char>,
    outer: Seq<char>,
    inner: Seq<char>,
) -> Pairs;

/// Calls `JsonValue::new_object` of json. Trusted: that the new object has
/// no members.
#[verifier::external_body]
pub(crate) fn new_object() -> (r: JsonValue)
    ensures
        members(r) == Pairs::empty(),
{
    JsonValue::new_object()
}

/// Assigns the string `text` to `object[key]`, through `IndexMut<&str>` and
/// `From<&str>` of json's `JsonValue`. Trusted: that the member for `key`
/// gets the text in the place it had, or comes in as the last member, and
/// that the other members stay; a value that was no object becomes one.
#[verifier::external_body]
pub(crate) fn set_text(object: &mut JsonValue, key: &str, text: &str)
    ensures
        members(*final(object)) == put(members(*old(object)), key@, text@),
{
    object[key] = text.into();
}

/// Calls `JsonValue::is_null` of json.
#[verifier::external_body]
pub(crate) fn value_is_null(value: &JsonValue) -> (r: bool)
    ensures
        r == is_null(*value),
{
    value.is_null()
}

/// Writes `value[outer][inner]` with `Display`, through `Index<&str>` of
/// json's `JsonValue`. Trusted: that the text depends on the value and the
/// keys alone.
#[verifier::external_body]
pub(crate) fn text_under(value: &JsonValue, outer: &str, inner: &str) -> (r: String)
    ensures
        r@ == text_at(*value, outer@, inner@),
{
    value[outer][inner].to_string()
}

/// Walks `value[list]` with `JsonValue::members` of json and writes, for each
/// member, its `[id]` and its `[outer][inner]` with `Display`. Trusted: that
/// the list depends on the value and the keys alone.
#[verifier::external_body]
pub(crate) fn list_under(value: &JsonValue, list: &str, id: &str, outer: &str, inner: &str) -> (r:
    Vec<Ticket>)
    ensures
        pairs_of(r@) == listed(*value, list@, id@, outer@, inner@),
{
    let ticket = |member: &JsonValue| {
        Ticket { id: member[id].to_string(), title: member[outer][inner].to_string() }
    };
    value[list].members().map(ticket).collect()
}

} // verus!
