//! The values that pass between the client and its caller: a call, what came
//! back for it, and the errors a call or a whole batch can end in.

use vstd::prelude::*;
use vstd::string::StringExecFns;

verus! {

/// `url::ParseError`, carried through as an opaque value.
#[verifier::external_type_specification]
#[verifier::external_body]
pub struct ExUrlParseError(url::ParseError);

/// `serde_qs::Error`, carried through as an opaque value.
#[verifier::external_type_specification]
#[verifier::external_body]
pub struct ExQueryError(serde_qs::Error);

/// One logical call: a method name and its parameters. A call has no
/// identity but its place in the sequence it was handed over in.
#[derive(Debug)]
pub struct JSONRPCCall {
    pub method: String,
    pub params: serde_json::Value,
}

/// A well-formed error response of the remote endpoint. `data` is the raw
/// JSON text of the error's data member, where there is one.
#[derive(Debug)]
pub struct ErrorPayload {
    pub code: i64,
    pub message: String,
    pub data: Option<String>,
}

/// An error payload as contracts see it.
pub struct ErrorPayloadView {
    pub code: i64,
    pub message: Seq<char>,
    pub data: Option<Seq<char>>,
}

impl View for ErrorPayload {
    type V = ErrorPayloadView;

    open spec fn view(&self) -> ErrorPayloadView {
        ErrorPayloadView {
            code: self.code,
            message: self.message@,
            data: match self.data {
                Some(d) => Some(d@),
                None => None,
            },
        }
    }
}

/// Why one attempt to reach the endpoint did not give a value.
#[derive(Debug)]
pub enum TransportFailure {
    /// The endpoint answered with an HTTP status that is no success.
    HttpError { status: u16, body: String },
    /// The transport itself failed (a reset connection, a timeout, a missing
    /// answer). `retryable` is the transport's own report of whether trying
    /// again can help.
    Transport { retryable: bool, message: String },
    /// The endpoint answered with `text`, which is no response.
    DeserError { text: String, message: String },
    /// The endpoint answered with an error response.
    ErrorResp(ErrorPayload),
    /// The call failed on this side of the wire: it could not be serialised,
    /// or asked for something the transport does not offer.
    Local { message: String },
    /// Retrying was given up; `last` is the failure of the final attempt.
    RetriesExhausted { last: Box<TransportFailure> },
}

/// The errors of the client.
#[derive(Debug)]
pub enum JSONRPCError {
    /// The endpoint is no URL.
    URLParse(url::ParseError),
    /// The endpoint's fragment is no configuration.
    URLParamsParse(serde_qs::Error),
    /// The call failed for good: retrying did not help or was not in order.
    Transport(TransportFailure),
    /// The endpoint answered the call with an error response.
    Payload(ErrorPayload),
    /// The endpoint answered the call with null, and null counts as failure.
    NullValue,
}

impl JSONRPCError {
    /// The error in words.
    pub open spec fn spec_message(&self) -> Seq<char> {
        match self {
            JSONRPCError::URLParse(_) => "URL parse error"@,
            JSONRPCError::URLParamsParse(_) => "URL parameters parse error"@,
            JSONRPCError::Transport(_) => "Transport error"@,
            JSONRPCError::Payload(_) => "payload"@,
            JSONRPCError::NullValue => "null value"@,
        }
    }

    /// The error in words.
    pub fn message(&self) -> (r: String)
        ensures
            r@ == self.spec_message(),
    {
        match self {
            JSONRPCError::URLParse(_) => String::from_str("URL parse error"),
            JSONRPCError::URLParamsParse(_) => String::from_str("URL parameters parse error"),
            JSONRPCError::Transport(_) => String::from_str("Transport error"),
            JSONRPCError::Payload(_) => String::from_str("payload"),
            JSONRPCError::NullValue => String::from_str("null value"),
        }
    }
}

/// What one call resolved to.
pub type JSONRPCCallResult = Result<serde_json::Value, JSONRPCError>;

/// What a sequence of calls resolved to: one result per call, in the order of
/// the calls, or the one error that ended them all.
pub type BatchJSONRPCResult = Result<Vec<JSONRPCCallResult>, JSONRPCError>;

/// What the transport hands back for one call, before it is mapped.
pub type CallOutcome = Result<serde_json::Value, TransportFailure>;

} // verus!
