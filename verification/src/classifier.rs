//! What a failure says about the next step: whether trying again can help,
//! and whether the endpoint itself named the delay to wait.
//!
//! Reading an error payload out of JSON and judging it by its code and
//! message are `alloy_json_rpc`'s and `serde_json`'s work; the trusted
//! functions below name their results, and everything built on them is
//! proved.

use vstd::prelude::*;
use crate::delay::Delay;
use crate::json::{as_u64, f64_bits, json_as_u64, json_f64_bits, json_member, json_parse, member, parse_value};
use crate::rounding::{lemma_rounded_up_examples, seconds_rounded_up, spec_seconds_rounded_up};
use crate::result::{ErrorPayload, ErrorPayloadView, TransportFailure};

verus! {

/// Whether `alloy_json_rpc` counts an error response with this code and
/// message as worth retrying (`ErrorPayload::is_retry_err`, which reads the
/// code and the message and nothing else).
pub uninterp spec fn payload_retryable(code: i64, message: Seq<char>) -> bool;

/// The error payload that `serde_json::from_str` reads from `text` at type
/// `alloy_json_rpc::ErrorPayload`, or `None` where it reports an error.
pub uninterp spec fn payload_in_text(text: Seq<char>) -> Option<ErrorPayloadView>;

/// The error payload that `serde_json::from_value` reads from `v` at type
/// `alloy_json_rpc::ErrorPayload`, or `None` where it reports an error.
pub uninterp spec fn payload_in_value(v: serde_json::Value) -> Option<ErrorPayloadView>;

/// Trusted: builds an `alloy_json_rpc::ErrorPayload` with the code and
/// message of `p` and calls `is_retry_err` on it. That method looks at the
/// code and at the message only, so the payload is built without data.
#[verifier::external_body]
pub(crate) fn payload_is_retry_err(p: &ErrorPayload) -> (r: bool)
    ensures
        r == payload_retryable(p.code, p.message@),
{
    let outside = alloy_json_rpc::ErrorPayload::<()> {
        code: p.code,
        message: std::borrow::Cow::Owned(p.message.clone()),
        data: None,
    };
    outside.is_retry_err()
}

/// Trusted: calls `serde_json::from_str` at type
/// `alloy_json_rpc::ErrorPayload` and copies the payload's three members
/// out; the data member is copied as the raw JSON text it arrived as.
#[verifier::external_body]
pub(crate) fn payload_from_text(text: &str) -> (r: Option<ErrorPayload>)
    ensures
        match r {
            Some(p) => payload_in_text(text@) == Some(p@),
            None => payload_in_text(text@).is_none(),
        },
{
    serde_json::from_str::<alloy_json_rpc::ErrorPayload>(text).ok().map(
        |p| ErrorPayload {
            code: p.code,
            message: p.message.into_owned(),
            data: p.data.map(|d| d.get().to_owned()),
        },
    )
}

/// Trusted: calls `serde_json::from_value` at type
/// `alloy_json_rpc::ErrorPayload` on a copy of `v` and copies the payload's
/// three members out.
#[verifier::external_body]
pub(crate) fn payload_from_value(v: &serde_json::Value) -> (r: Option<ErrorPayload>)
    ensures
        match r {
            Some(p) => payload_in_value(*v) == Some(p@),
            None => payload_in_value(*v).is_none(),
        },
{
    serde_json::from_value::<alloy_json_rpc::ErrorPayload>(v.clone()).ok().map(
        |p| ErrorPayload {
            code: p.code,
            message: p.message.into_owned(),
            data: p.data.map(|d| d.get().to_owned()),
        },
    )
}

/// Whether `status` is one of `codes`.
pub fn status_listed(codes: &Vec<u16>, status: u16) -> (r: bool)
    ensures
        r == codes@.contains(status),
{
    let mut i: usize = 0;
    while i < codes.len()
        invariant
            i <= codes.len(),
            forall|j: int| 0 <= j < i ==> codes@[j] != status,
        decreases codes.len() - i,
    {
        if codes[i] == status {
            return true;
        }
        i += 1;
    }
    false
}

/// The error payload that a response body holds: the body itself where it
/// reads as one, else its member `error` where the body is JSON and that
/// member reads as one.
pub open spec fn spec_payload_in_body(text: Seq<char>) -> Option<ErrorPayloadView> {
    match payload_in_text(text) {
        Some(p) => Some(p),
        None => match json_parse(text) {
            Some(v) => payload_in_value(json_member(v, "error"@)),
            None => None,
        },
    }
}

/// Reads the error payload that a response body holds, directly or under
/// its member `error`.
pub fn payload_in_body(text: &str) -> (r: Option<ErrorPayload>)
    ensures
        match r {
            Some(p) => spec_payload_in_body(text@) == Some(p@),
            None => spec_payload_in_body(text@).is_none(),
        },
{
    match payload_from_text(text) {
        Some(p) => Some(p),
        None => match parse_value(text) {
            Some(v) => payload_from_value(member(&v, "error")),
            None => None,
        },
    }
}

/// The delay that a rate-limit hint asks for: the least whole number of
/// seconds that is not below the hint. `whole` is the hint where it is
/// written as a whole number of seconds, which is then the delay as it
/// stands. `rounded_up` is the hint rounded up to whole seconds, where it
/// is a number at all: a whole number written with a fraction of zero is
/// itself, any other number the next whole second above it.
pub open spec fn spec_hint_seconds(whole: Option<u64>, rounded_up: Option<u64>) -> Option<Delay> {
    match whole {
        Some(s) => Some(Delay { secs: s, nanos: 0 }),
        None => match rounded_up {
            Some(s) => Some(Delay { secs: s, nanos: 0 }),
            None => None,
        },
    }
}

/// Computes the delay that a rate-limit hint asks for from the two readings
/// of the hint.
pub fn hint_seconds(whole: Option<u64>, rounded_up: Option<u64>) -> (r: Option<Delay>)
    ensures
        r == spec_hint_seconds(whole, rounded_up),
        r matches Some(d) ==> d.wf(),
{
    match whole {
        Some(s) => Some(Delay::from_secs(s)),
        None => match rounded_up {
            Some(s) => Some(Delay::from_secs(s)),
            None => None,
        },
    }
}

/// The place of the hint in an error's data: member `backoff_seconds` of
/// member `rate`.
pub open spec fn spec_hint_field(v: serde_json::Value) -> serde_json::Value {
    json_member(json_member(v, "rate"@), "backoff_seconds"@)
}

/// A number rounded up to whole seconds, from the bits of its double.
pub open spec fn spec_rounded_up(bits: Option<u64>) -> Option<u64> {
    match bits {
        Some(b) => Some(spec_seconds_rounded_up(b)),
        None => None,
    }
}

/// The delay that a rate-limit hint asks for, from its two readings:
/// `whole` is the hint where it is written as a whole number of seconds,
/// `bits` the bits of its double where it is a number at all.
pub open spec fn spec_hint_delay(whole: Option<u64>, bits: Option<u64>) -> Option<Delay> {
    spec_hint_seconds(whole, spec_rounded_up(bits))
}

/// Computes the delay that a rate-limit hint asks for from its two
/// readings.
pub fn hint_delay(whole: Option<u64>, bits: Option<u64>) -> (r: Option<Delay>)
    ensures
        r == spec_hint_delay(whole, bits),
        r matches Some(d) ==> d.wf(),
{
    let rounded_up = match bits {
        Some(b) => Some(seconds_rounded_up(b)),
        None => None,
    };
    hint_seconds(whole, rounded_up)
}

/// The delay that the data of an error response asks for, where the data is
/// JSON and holds a numeric hint.
pub open spec fn spec_hint_in_data(data: Seq<char>) -> Option<Delay> {
    match json_parse(data) {
        Some(v) => spec_hint_delay(
            json_as_u64(spec_hint_field(v)),
            json_f64_bits(spec_hint_field(v)),
        ),
        None => None,
    }
}

/// Reads the delay that the data of an error response asks for.
pub fn hint_in_data(data: &str) -> (r: Option<Delay>)
    ensures
        r == spec_hint_in_data(data@),
        r matches Some(d) ==> d.wf(),
{
    match parse_value(data) {
        Some(v) => {
            let field = member(member(&v, "rate"), "backoff_seconds");
            hint_delay(as_u64(field), f64_bits(field))
        },
        None => None,
    }
}

/// Whether trying again can help after `failure`, given the status codes
/// that count as passing.
pub open spec fn spec_should_retry(codes: Seq<u16>, failure: TransportFailure) -> bool {
    match failure {
        TransportFailure::HttpError { status, .. } => codes.contains(status),
        TransportFailure::Transport { retryable, .. } => retryable,
        TransportFailure::DeserError { text, .. } => match spec_payload_in_body(text@) {
            Some(p) => payload_retryable(p.code, p.message),
            None => false,
        },
        TransportFailure::ErrorResp(p) => payload_retryable(p.code, p.message@),
        _ => false,
    }
}

/// The delay that `failure` itself asks for: only an error response can ask,
/// through a numeric rate-limit hint in its data.
pub open spec fn spec_backoff_hint(failure: TransportFailure) -> Option<Delay> {
    match failure {
        TransportFailure::ErrorResp(p) => match p.data {
            Some(d) => spec_hint_in_data(d@),
            None => None,
        },
        _ => None,
    }
}

/// A hint written as a whole number of seconds is the delay as it stands;
/// any other numeric hint is the delay of its value rounded up to whole
/// seconds, with no second added to it; what is no number is no hint.
pub proof fn lemma_hint_value(whole: Option<u64>, rounded_up: Option<u64>)
    ensures
        whole.is_some() ==> spec_hint_seconds(whole, rounded_up) == Some(
            Delay { secs: whole.unwrap(), nanos: 0 },
        ),
        whole.is_none() && rounded_up.is_some() ==> spec_hint_seconds(whole, rounded_up) == Some(
            Delay { secs: rounded_up.unwrap(), nanos: 0 },
        ),
        whole.is_none() && rounded_up.is_none() ==> spec_hint_seconds(whole, rounded_up).is_none(),
{
}

/// A hint of one and a half seconds is a delay of two seconds, and a hint
/// of two seconds written as `2.0` is a delay of two seconds.
pub proof fn lemma_hint_examples()
    ensures
        spec_hint_delay(None, Some(0x3ff8000000000000)) == Some(Delay { secs: 2, nanos: 0 }),
        spec_hint_delay(None, Some(0x4000000000000000)) == Some(Delay { secs: 2, nanos: 0 }),
        spec_hint_delay(Some(2), Some(0x4000000000000000)) == Some(Delay { secs: 2, nanos: 0 }),
{
    lemma_rounded_up_examples();
}

} // verus!
