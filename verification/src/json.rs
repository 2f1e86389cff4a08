//! The structured values that block configuration and block output are
//! made of are `serde_json::Value`s. The verifier sees such a value as
//! opaque; what this library reads from one is named here and obtained
//! through the functions below, whose contracts are taken on trust.

use serde_json::Value;
use vstd::prelude::*;

verus! {

/// `serde_json::Value`, carried through as an opaque value.
#[verifier::external_type_specification]
#[verifier::external_body]
pub struct ExJsonValue(serde_json::Value);

/// What `Value::get` finds in `v` under the string key `key`: the member of
/// that name if `v` is a JSON object that has one, nothing otherwise.
pub uninterp spec fn json_member(v: Value, key: Seq<char>) -> Option<Value>;

/// What `Value::as_u64` reads from `v`: the number, if `v` is an integer
/// that fits an unsigned 64-bit integer, nothing otherwise.
pub uninterp spec fn json_u64(v: Value) -> Option<u64>;

/// What `serde_json::to_string_pretty` writes for `v`, or nothing where it
/// reports an error.
pub uninterp spec fn json_pretty(v: Value) -> Option<Seq<char>>;

/// Calls `serde_json::Value::get` with a string key. Trusted: the result is
/// the member that `json_member` names, borrowed from `v`.
#[verifier::external_body]
pub(crate) fn member<'a>(v: &'a Value, key: &str) -> (r: Option<&'a Value>)
    ensures
        match r {
            Some(m) => json_member(*v, key@) == Some(*m),
            None => json_member(*v, key@) is None,
        },
{
    v.get(key)
}

/// Calls `serde_json::Value::as_u64`. Trusted: the result is the number
/// that `json_u64` names.
#[verifier::external_body]
pub(crate) fn as_u64(v: &Value) -> (r: Option<u64>)
    ensures
        r == json_u64(*v),
{
    v.as_u64()
}

/// Calls `serde_json::to_string_pretty` on a value. Trusted: the result is
/// the text that `json_pretty` names, and absent exactly where the
/// serializer reports an error.
#[verifier::external_body]
pub(crate) fn pretty(v: &Value) -> (r: Option<String>)
    ensures
        match r {
            Some(s) => json_pretty(*v) == Some(s@),
            None => json_pretty(*v) is None,
        },
{
    serde_json::to_string_pretty(v).ok()
}

/// Calls `Value::clone`, which `serde_json` derives. Trusted: the copy is
/// equal to the value it was made from.
#[verifier::external_body]
pub(crate) fn duplicate(v: &Value) -> (r: Value)
    ensures
        r == *v,
{
    v.clone()
}

} // verus!
