//! JSON values, as `serde_json` holds them, and the few questions the client
//! asks of one. Every function here is trusted: its contract names what the
//! `serde_json` call returns and is believed, not proved.

use vstd::prelude::*;

verus! {

/// `serde_json::Value`, carried through as an opaque value.
#[verifier::external_type_specification]
#[verifier::external_body]
pub struct ExValue(serde_json::Value);

/// The value that `serde_json::from_str::<Value>` reads from `text`, or `None`
/// where it reports an error.
pub uninterp spec fn json_parse(text: Seq<char>) -> Option<serde_json::Value>;

/// Whether `Value::is_null` holds of `v`.
pub uninterp spec fn json_is_null(v: serde_json::Value) -> bool;

/// What indexing `v` by the string `key` gives: the member of that name where
/// `v` is an object that has one, and the null value otherwise.
pub uninterp spec fn json_member(v: serde_json::Value, key: Seq<char>) -> serde_json::Value;

/// What `Value::as_u64` returns for `v`.
pub uninterp spec fn json_as_u64(v: serde_json::Value) -> Option<u64>;

/// For a number, the bits of its value as `Value::as_f64` gives it: the
/// sign, the exponent and the fraction of the double, as `f64::to_bits`
/// lays them out. `None` where `v` is no number.
pub uninterp spec fn json_f64_bits(v: serde_json::Value) -> Option<u64>;

/// Trusted: calls `serde_json::from_str` at type `Value`. The result is the
/// parsed value, or `None` on any parse error; it depends on `text` alone.
#[verifier::external_body]
pub(crate) fn parse_value(text: &str) -> (r: Option<serde_json::Value>)
    ensures
        r == json_parse(text@),
{
    serde_json::from_str::<serde_json::Value>(text).ok()
}

/// Trusted: calls `Value::is_null`.
#[verifier::external_body]
pub(crate) fn is_null(v: &serde_json::Value) -> (r: bool)
    ensures
        r == json_is_null(*v),
{
    v.is_null()
}

/// Trusted: indexes `v` by a string key (`Index<&str> for Value`), which never
/// panics: a missing member, or a `v` that is no object, gives the null value.
#[verifier::external_body]
pub(crate) fn member<'a>(v: &'a serde_json::Value, key: &str) -> (r: &'a serde_json::Value)
    ensures
        *r == json_member(*v, key@),
{
    &v[key]
}

/// Trusted: calls `Value::as_u64`.
#[verifier::external_body]
pub(crate) fn as_u64(v: &serde_json::Value) -> (r: Option<u64>)
    ensures
        r == json_as_u64(*v),
{
    v.as_u64()
}

/// Trusted: calls `Value::as_f64` and hands the number out as its bits
/// (`f64::to_bits`), unchanged.
#[verifier::external_body]
pub(crate) fn f64_bits(v: &serde_json::Value) -> (r: Option<u64>)
    ensures
        r == json_f64_bits(*v),
{
    v.as_f64().map(|s| s.to_bits())
}

} // verus!
