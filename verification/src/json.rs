//! JSON values, as serde_json reads and holds them.
//!
//! A value is opaque here. What it holds is named by four spec functions,
//! one for each way in which the library looks into a value, and each
//! wrapper below says that a call of serde_json gives what its name says.

use vstd::prelude::*;

verus! {

/// serde_json's value of any JSON kind, held as an opaque value.
#[verifier::external_type_specification]
#[verifier::external_body]
pub struct ExValue(serde_json::Value);

/// The value that a text is read as, none where the text is not JSON.
pub uninterp spec fn parsed(text: Seq<char>) -> Option<serde_json::Value>;

/// The member of an object under a key. JSON's null where the value is no
/// object or has no member of that key.
pub uninterp spec fn member_of(value: serde_json::Value, key: Seq<char>) -> serde_json::Value;

/// The characters of a value that is a string; none for any other value.
pub uninterp spec fn text_of(value: serde_json::Value) -> Option<Seq<char>>;

/// The truth value of a value that is a boolean; none for any other value.
pub uninterp spec fn flag_of(value: serde_json::Value) -> Option<bool>;

/// The elements of a value that is an array; none for any other value.
pub uninterp spec fn items_of(value: serde_json::Value) -> Option<Seq<serde_json::Value>>;

/// Calls `serde_json::from_str` for a `Value` and drops the error. What a
/// text is read as depends on the text alone.
#[verifier::external_body]
pub(crate) fn parse(text: &str) -> (r: Option<serde_json::Value>)
    ensures
        r == parsed(text@),
{
    serde_json::from_str(text).ok()
}

/// Indexes a `Value` by a key, as `Value`'s `Index` does: it never fails,
/// and gives null where there is nothing under the key.
#[verifier::external_body]
pub(crate) fn member<'a>(value: &'a serde_json::Value, key: &str) -> (r: &'a serde_json::Value)
    ensures
        *r == member_of(*value, key@),
{
    &value[key]
}

/// Calls `Value::as_str`.
#[verifier::external_body]
pub(crate) fn as_text<'a>(value: &'a serde_json::Value) -> (r: Option<&'a str>)
    ensures
        r.deep_view() == text_of(*value),
{
    value.as_str()
}

/// Calls `Value::as_bool`.
#[verifier::external_body]
pub(crate) fn as_flag(value: &serde_json::Value) -> (r: Option<bool>)
    ensures
        r == flag_of(*value),
{
    value.as_bool()
}

/// Calls `Value::as_array`.
#[verifier::external_body]
pub(crate) fn as_items<'a>(value: &'a serde_json::Value) -> (r: Option<&'a Vec<serde_json::Value>>)
    ensures
        r is Some <==> items_of(*value) is Some,
        r matches Some(items) ==> items@ == items_of(*value)->0,
{
    value.as_array()
}

} // verus!
