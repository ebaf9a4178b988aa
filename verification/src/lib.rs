//! The verified core of a resilient, batching JSON-RPC client: how failures
//! are classified, when a call is retried and after what delay, how calls are
//! grouped into wire batches, how outcomes become per-call results, and how
//! many calls may be in flight at once.
//!
//! The library decides and the caller acts: sending a request, sleeping
//! through a backoff and waiting for a permit are the caller's part.

pub mod arrow_ext;
pub mod batching;
pub mod classifier;
pub mod concurrency_limit_layer;
pub mod delay;
pub mod endpoint;
pub mod json;
pub mod json_result;
pub mod json_rpc_client;
pub mod object_store;
pub mod result;
pub mod retry_layer;
pub mod rounding;
pub mod url_ext;

pub use arrow_ext::ArrowExtError;
pub use concurrency_limit_layer::{ConcurrencyLimitLayer, ConcurrencyLimitService, Permit};
pub use delay::{Backoff, Delay};
pub use json_result::JSONResult;
pub use object_store::{opts_from_url, opts_from_vars};
pub use json_rpc_client::{DispatchMode, JSONRpcClient, JSONRpcClientConfig};
pub use result::{BatchJSONRPCResult, CallOutcome, ErrorPayload, JSONRPCCall, JSONRPCCallResult, JSONRPCError, TransportFailure};
pub use retry_layer::{RetryConfig, RetryLayer, RetryPhase, RetryService, RetryState, RetryStep};
pub use url_ext::{append_path_segments, UrlExtError};
