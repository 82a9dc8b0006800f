//! Reading JSON values.

use serde_json::Value;
use vstd::prelude::*;

verus! {

/// `serde_json::Value`, a JSON value.
#[verifier::external_type_specification]
#[verifier::external_body]
pub struct ExValue(serde_json::Value);

/// The member of `v` under the name `key`, null if there is none.
pub uninterp spec fn json_member(v: Value, key: Seq<char>) -> Value;

/// The number that `v` is, if it is an integer from 0 to `u64::MAX`.
pub uninterp spec fn json_as_u64(v: Value) -> Option<u64>;

/// The text that `v` is, if it is a string.
pub uninterp spec fn json_as_str(v: Value) -> Option<Seq<char>>;

/// Looks up a member with the index operator of `serde_json::Value`. It is believed
/// that what it finds depends on the value and the name alone.
#[verifier::external_body]
pub(crate) fn member<'a>(v: &'a Value, key: &str) -> (r: &'a Value)
    ensures
        *r == json_member(*v, key@),
{
    &v[key]
}

/// Reads a number with `serde_json::Value::as_u64`. It is believed that the outcome
/// depends on the value alone.
#[verifier::external_body]
pub(crate) fn as_u64(v: &Value) -> (r: Option<u64>)
    ensures
        r == json_as_u64(*v),
{
    v.as_u64()
}

/// Reads a text with `serde_json::Value::as_str`. It is believed that the outcome
/// depends on the value alone.
#[verifier::external_body]
pub(crate) fn as_str(v: &Value) -> (r: Option<&str>)
    ensures
        json_as_str(*v) == (match r {
            Some(s) => Some(s@),
            None => None,
        }),
{
    v.as_str()
}

} // verus!
