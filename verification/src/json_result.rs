//! A result in the shape in which it is handed to callers as JSON: either a
//! value or the text of an error.

use vstd::prelude::*;

verus! {

/// A value, or the text of the error that stands in its place.
#[derive(Debug)]
pub enum JSONResult {
    Value(serde_json::Value),
    Error(String),
}

impl JSONResult {
    /// What a result becomes. `res` is the caller's result with its error
    /// as text; inside, the value as JSON, or the text of the error that
    /// turning it into JSON gave. Either error is the result's error.
    pub open spec fn spec_from_result(
        res: Result<Result<serde_json::Value, String>, String>,
    ) -> JSONResult {
        match res {
            Err(e) => JSONResult::Error(e),
            Ok(Err(e)) => JSONResult::Error(e),
            Ok(Ok(v)) => JSONResult::Value(v),
        }
    }

    /// The result that this stands for.
    pub open spec fn spec_into_result(self) -> Result<serde_json::Value, String> {
        match self {
            JSONResult::Error(e) => Err(e),
            JSONResult::Value(v) => Ok(v),
        }
    }

    /// Wraps a result.
    pub fn from_result(res: Result<Result<serde_json::Value, String>, String>) -> (r: JSONResult)
        ensures
            r == JSONResult::spec_from_result(res),
    {
        match res {
            Err(e) => JSONResult::Error(e),
            Ok(Err(e)) => JSONResult::Error(e),
            Ok(Ok(v)) => JSONResult::Value(v),
        }
    }

    /// Unwraps the result.
    pub fn into_result(self) -> (r: Result<serde_json::Value, String>)
        ensures
            r == self.spec_into_result(),
    {
        match self {
            JSONResult::Error(e) => Err(e),
            JSONResult::Value(v) => Ok(v),
        }
    }
}

/// Wrapping a result that holds a value and unwrapping it again gives the
/// value back; an error comes back as the same text, whichever of the two
/// it was.
pub proof fn lemma_round_trip(res: Result<Result<serde_json::Value, String>, String>)
    ensures
        JSONResult::spec_from_result(res).spec_into_result() == match res {
            Err(e) => Err::<serde_json::Value, String>(e),
            Ok(inner) => inner,
        },
{
}

} // verus!
