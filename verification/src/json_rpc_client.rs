//! The client's own rules: its configuration, how a sequence of calls is cut
//! into wire batches, and how what came back becomes the result of each call
//! and of the whole sequence.

use vstd::prelude::*;
use crate::batching::{chunks_of, spec_chunk_views, spec_chunks};
use crate::concurrency_limit_layer::ConcurrencyLimitLayer;
use crate::delay::Delay;
use crate::json::{is_null, json_is_null};
use crate::result::{BatchJSONRPCResult, CallOutcome, JSONRPCCall, JSONRPCCallResult, JSONRPCError, TransportFailure};
use crate::retry_layer::{RetryConfig, RetryConfigView, RetryLayer};

verus! {

/// The configuration of a client. It is fixed when the client is made and
/// read by every call.
#[derive(Debug)]
pub struct JSONRpcClientConfig {
    /// Send every call on its own instead of in wire batches.
    pub disable_batch: bool,
    /// The calls that one wire batch holds at most.
    pub max_batch_size: usize,
    /// The calls that may be in flight at once.
    pub max_concurrent_requests: usize,
    /// Count a null value as the call's failure.
    pub fail_on_null: bool,
    /// Let an error response end the whole sequence of calls.
    pub fail_on_error: bool,
    /// HTTP statuses after which an attempt is repeated.
    pub retryable_status_codes: Vec<u16>,
    /// The first backoff interval.
    pub retry_initial_interval: Delay,
    /// How far a delay may lie from its interval to either side, in
    /// thousandths of the interval.
    pub retry_randomization_permille: u32,
    /// The factor by which the interval grows from attempt to attempt, in
    /// thousandths.
    pub retry_multiplier_permille: u32,
    /// The interval beyond which the backoff does not grow.
    pub retry_max_interval: Delay,
    /// The time after which the backoff gives no further delay.
    pub retry_max_elapsed_time: Delay,
    /// The number of attempts after which a further failure ends the call.
    pub retry_max_tries: u32,
}

impl JSONRpcClientConfig {
    /// The retry rules that this configuration holds.
    pub open spec fn spec_retry_config(&self) -> RetryConfigView {
        RetryConfigView {
            retryable_status_codes: self.retryable_status_codes@,
            initial_interval: self.retry_initial_interval,
            randomization_permille: self.retry_randomization_permille,
            multiplier_permille: self.retry_multiplier_permille,
            max_interval: self.retry_max_interval,
            max_elapsed_time: self.retry_max_elapsed_time,
            max_tries: self.retry_max_tries,
        }
    }

    /// Whether every setting has the value it has when nothing is
    /// configured.
    pub open spec fn is_default(&self) -> bool {
        &&& !self.disable_batch
        &&& self.max_batch_size == 100
        &&& self.max_concurrent_requests == 5
        &&& !self.fail_on_null
        &&& !self.fail_on_error
        &&& self.retryable_status_codes@ == seq![429u16, 502u16, 503u16]
        &&& self.retry_initial_interval == (Delay { secs: 0, nanos: 100_000_000 })
        &&& self.retry_randomization_permille == 500
        &&& self.retry_multiplier_permille == 2000
        &&& self.retry_max_interval == (Delay { secs: 30, nanos: 0 })
        &&& self.retry_max_elapsed_time == (Delay { secs: 60, nanos: 0 })
        &&& self.retry_max_tries == 10
    }

    /// The retry rules that this configuration holds.
    pub fn retry_config(&self) -> (r: RetryConfig)
        ensures
            r@ == self.spec_retry_config(),
    {
        RetryConfig {
            retryable_status_codes: self.retryable_status_codes.clone(),
            initial_interval: self.retry_initial_interval,
            randomization_permille: self.retry_randomization_permille,
            multiplier_permille: self.retry_multiplier_permille,
            max_interval: self.retry_max_interval,
            max_elapsed_time: self.retry_max_elapsed_time,
            max_tries: self.retry_max_tries,
        }
    }
}

impl Default for JSONRpcClientConfig {
    fn default() -> (c: Self)
        ensures
            c.is_default(),
    {
        let codes: Vec<u16> = vec![429u16, 502u16, 503u16];
        assert(codes@ =~= seq![429u16, 502u16, 503u16]);
        JSONRpcClientConfig {
            disable_batch: false,
            max_batch_size: 100,
            max_concurrent_requests: 5,
            fail_on_null: false,
            fail_on_error: false,
            retryable_status_codes: codes,
            retry_initial_interval: Delay::from_millis(100),
            retry_randomization_permille: 500,
            retry_multiplier_permille: 2000,
            retry_max_interval: Delay::from_secs(30),
            retry_max_elapsed_time: Delay::from_secs(60),
            retry_max_tries: 10,
        }
    }
}

/// How a sequence of calls goes over the wire.
#[derive(Clone, Copy, Debug, PartialEq, Eq, Structural)]
pub enum DispatchMode {
    /// In wire batches of bounded size.
    Batch,
    /// Each call on its own.
    PerCall,
}

/// The result of a call that gave `v`: the value, unless it is null and
/// null counts as failure.
pub open spec fn spec_map_value(
    fail_on_null: bool,
    null: bool,
    v: serde_json::Value,
) -> JSONRPCCallResult {
    if null && fail_on_null {
        Err(JSONRPCError::NullValue)
    } else {
        Ok(v)
    }
}

/// Maps the value of a call to the call's result; `null` says whether the
/// value is null.
pub fn map_value(fail_on_null: bool, null: bool, v: serde_json::Value) -> (r: JSONRPCCallResult)
    ensures
        r == spec_map_value(fail_on_null, null, v),
{
    if null && fail_on_null {
        Err(JSONRPCError::NullValue)
    } else {
        Ok(v)
    }
}

/// What one outcome becomes. `Ok` holds the call's own result, a value or
/// a soft error that touches no other call; `Err` is fatal to the sequence
/// the call belongs to.
///
/// A value is the call's result, or the soft error `NullValue` where it is
/// null and null counts as failure. An error response is the soft error
/// `Payload`, or fatal where error responses are to fail the sequence.
/// Every other failure is fatal.
pub open spec fn spec_process(
    fail_on_null: bool,
    fail_on_error: bool,
    res: CallOutcome,
) -> Result<JSONRPCCallResult, JSONRPCError> {
    match res {
        Ok(v) => Ok(spec_map_value(fail_on_null, json_is_null(v), v)),
        Err(TransportFailure::ErrorResp(p)) => if fail_on_error {
            Err(JSONRPCError::Transport(TransportFailure::ErrorResp(p)))
        } else {
            Ok(Err(JSONRPCError::Payload(p)))
        },
        Err(f) => Err(JSONRPCError::Transport(f)),
    }
}

/// Whether the outcome is fatal to the sequence its call belongs to.
pub open spec fn spec_is_fatal(fail_on_null: bool, fail_on_error: bool, res: CallOutcome) -> bool {
    spec_process(fail_on_null, fail_on_error, res).is_err()
}

/// The call's own result, for an outcome that is not fatal.
pub open spec fn spec_slot(
    fail_on_null: bool,
    fail_on_error: bool,
    res: CallOutcome,
) -> JSONRPCCallResult {
    spec_process(fail_on_null, fail_on_error, res)->Ok_0
}

/// The call's own result where each call stands for itself: a fatal outcome
/// is the error of its own call and of no other.
pub open spec fn spec_multi_slot(
    fail_on_null: bool,
    fail_on_error: bool,
    res: CallOutcome,
) -> JSONRPCCallResult {
    match spec_process(fail_on_null, fail_on_error, res) {
        Ok(slot) => slot,
        Err(e) => Err(e),
    }
}

/// Whether outcome `i` is the first fatal one.
pub open spec fn spec_first_fatal(
    fail_on_null: bool,
    fail_on_error: bool,
    outcomes: Seq<CallOutcome>,
    i: int,
) -> bool {
    &&& 0 <= i < outcomes.len()
    &&& spec_is_fatal(fail_on_null, fail_on_error, outcomes[i])
    &&& forall|j: int| 0 <= j < i ==> !spec_is_fatal(fail_on_null, fail_on_error, #[trigger] outcomes[j])
}

/// Whether no outcome is fatal.
pub open spec fn spec_none_fatal(
    fail_on_null: bool,
    fail_on_error: bool,
    outcomes: Seq<CallOutcome>,
) -> bool {
    forall|j: int|
        0 <= j < outcomes.len() ==> !spec_is_fatal(fail_on_null, fail_on_error, #[trigger] outcomes[j])
}

/// The results of the calls, one per outcome and in the order of the
/// outcomes.
pub open spec fn spec_slots(
    fail_on_null: bool,
    fail_on_error: bool,
    outcomes: Seq<CallOutcome>,
) -> Seq<JSONRPCCallResult> {
    Seq::new(outcomes.len(), |i: int| spec_slot(fail_on_null, fail_on_error, outcomes[i]))
}

/// The results of calls that each stand for themselves.
pub open spec fn spec_multi_slots(
    fail_on_null: bool,
    fail_on_error: bool,
    outcomes: Seq<CallOutcome>,
) -> Seq<JSONRPCCallResult> {
    Seq::new(outcomes.len(), |i: int| spec_multi_slot(fail_on_null, fail_on_error, outcomes[i]))
}

/// Whether send `i` is the first that failed.
pub open spec fn spec_first_failed_send(sends: Seq<Result<(), TransportFailure>>, i: int) -> bool {
    &&& 0 <= i < sends.len()
    &&& sends[i].is_err()
    &&& forall|j: int| 0 <= j < i ==> (#[trigger] sends[j]).is_ok()
}

/// Whether every send went through.
pub open spec fn spec_all_sent(sends: Seq<Result<(), TransportFailure>>) -> bool {
    forall|j: int| 0 <= j < sends.len() ==> (#[trigger] sends[j]).is_ok()
}

/// The results as contracts see them: a sequence in place of the vector.
pub open spec fn spec_batch_view(r: BatchJSONRPCResult) -> Result<
    Seq<JSONRPCCallResult>,
    JSONRPCError,
> {
    match r {
        Ok(v) => Ok(v@),
        Err(e) => Err(e),
    }
}

/// What a sequence of outcomes resolves to when one fatal outcome ends the
/// sequence: the error of the first fatal outcome, or else every call's own
/// result.
pub open spec fn spec_collect(
    fail_on_null: bool,
    fail_on_error: bool,
    outcomes: Seq<CallOutcome>,
    r: Result<Seq<JSONRPCCallResult>, JSONRPCError>,
) -> bool {
    match r {
        Ok(v) => {
            &&& spec_none_fatal(fail_on_null, fail_on_error, outcomes)
            &&& v == spec_slots(fail_on_null, fail_on_error, outcomes)
        },
        Err(e) => exists|i: int|
            {
                &&& #[trigger] spec_first_fatal(fail_on_null, fail_on_error, outcomes, i)
                &&& spec_process(fail_on_null, fail_on_error, outcomes[i]) == Err::<
                    JSONRPCCallResult,
                    JSONRPCError,
                >(e)
            },
    }
}

/// A client, as far as its rules go: it holds the configuration and decides
/// by it. Sending is the caller's part.
#[derive(Debug)]
pub struct JSONRpcClient {
    pub conf: JSONRpcClientConfig,
}

impl JSONRpcClient {
    /// A client that works by `conf`.
    pub fn new(conf: JSONRpcClientConfig) -> (c: JSONRpcClient)
        ensures
            c.conf == conf,
    {
        JSONRpcClient { conf }
    }

    /// The retry layer of this client.
    pub fn retry_layer(&self) -> (l: RetryLayer)
        ensures
            l.conf() == self.conf.spec_retry_config(),
    {
        RetryLayer::new(self.conf.retry_config())
    }

    /// The admission layer of this client.
    pub fn concurrency_limit_layer(&self) -> (l: ConcurrencyLimitLayer)
        ensures
            l.limit() == self.conf.max_concurrent_requests,
    {
        ConcurrencyLimitLayer::new(self.conf.max_concurrent_requests)
    }

    /// How this client sends a sequence of calls: in wire batches, unless
    /// batching is disabled.
    pub fn dispatch_mode(&self) -> (m: DispatchMode)
        ensures
            m == if self.conf.disable_batch {
                DispatchMode::PerCall
            } else {
                DispatchMode::Batch
            },
    {
        if self.conf.disable_batch {
            DispatchMode::PerCall
        } else {
            DispatchMode::Batch
        }
    }

    /// Cuts `calls` into the wire batches they are sent in: consecutive
    /// chunks of at most `max_batch_size` calls, in the order of the calls.
    pub fn batch_requests(&self, calls: Vec<JSONRPCCall>) -> (batches: Vec<Vec<JSONRPCCall>>)
        requires
            self.conf.max_batch_size > 0,
        ensures
            spec_chunk_views(batches@) == spec_chunks(calls@, self.conf.max_batch_size as nat),
    {
        chunks_of(calls, self.conf.max_batch_size)
    }

    /// Maps what came back for one call.
    pub fn process_rpc_result(&self, res: CallOutcome) -> (r: Result<JSONRPCCallResult, JSONRPCError>)
        ensures
            r == spec_process(self.conf.fail_on_null, self.conf.fail_on_error, res),
    {
        match res {
            Ok(v) => {
                let null = is_null(&v);
                Ok(map_value(self.conf.fail_on_null, null, v))
            },
            Err(TransportFailure::ErrorResp(p)) => {
                if self.conf.fail_on_error {
                    Err(JSONRPCError::Transport(TransportFailure::ErrorResp(p)))
                } else {
                    Ok(Err(JSONRPCError::Payload(p)))
                }
            },
            Err(f) => Err(JSONRPCError::Transport(f)),
        }
    }

    /// Resolves the outcomes of a sequence of calls that stand or fall
    /// together: the first fatal outcome is the error of the whole
    /// sequence; where none is fatal, every call has its own result, in the
    /// order of the outcomes.
    pub fn collect_results(&self, outcomes: Vec<CallOutcome>) -> (r: BatchJSONRPCResult)
        ensures
            spec_collect(
                self.conf.fail_on_null,
                self.conf.fail_on_error,
                outcomes@,
                spec_batch_view(r),
            ),
    {
        let ghost all = outcomes@;
        let ghost fnull = self.conf.fail_on_null;
        let ghost ferr = self.conf.fail_on_error;
        let mut out: Vec<JSONRPCCallResult> = Vec::new();
        for outcome in it: outcomes
            invariant
                it.seq() == all,
                fnull == self.conf.fail_on_null,
                ferr == self.conf.fail_on_error,
                out@.len() == it.index(),
                forall|j: int| 0 <= j < it.index() ==> !spec_is_fatal(fnull, ferr, #[trigger] all[j]),
                forall|j: int|
                    0 <= j < it.index() ==> #[trigger] out@[j] == spec_slot(fnull, ferr, all[j]),
        {
            match self.process_rpc_result(outcome) {
                Ok(slot) => {
                    out.push(slot);
                },
                Err(e) => {
                    assert(spec_first_fatal(fnull, ferr, all, it.index() as int));
                    return Err(e);
                },
            }
        }
        assert(out@ =~= spec_slots(fnull, ferr, all));
        Ok(out)
    }

    /// Resolves a batched sequence of calls. `sends` holds, batch by batch,
    /// whether the batch went over the wire; `outcomes` holds, call by
    /// call, what came back. The first batch that failed to go ends the
    /// whole sequence with its failure, whatever came back for any call.
    /// Where every batch went, the outcomes are resolved together.
    pub fn batch_results(
        &self,
        sends: Vec<Result<(), TransportFailure>>,
        outcomes: Vec<CallOutcome>,
    ) -> (r: BatchJSONRPCResult)
        ensures
            spec_all_sent(sends@) ==> spec_collect(
                self.conf.fail_on_null,
                self.conf.fail_on_error,
                outcomes@,
                spec_batch_view(r),
            ),
            !spec_all_sent(sends@) ==> exists|i: int|
                {
                    &&& #[trigger] spec_first_failed_send(sends@, i)
                    &&& r == Err::<Vec<JSONRPCCallResult>, JSONRPCError>(
                        JSONRPCError::Transport(sends@[i]->Err_0),
                    )
                },
    {
        let ghost all = sends@;
        for send in it: sends
            invariant
                it.seq() == all,
                forall|j: int| 0 <= j < it.index() ==> (#[trigger] all[j]).is_ok(),
        {
            match send {
                Ok(_) => {},
                Err(f) => {
                    assert(spec_first_failed_send(all, it.index() as int));
                    return Err(JSONRPCError::Transport(f));
                },
            }
        }
        self.collect_results(outcomes)
    }

    /// Resolves a sequence of calls that were each sent on their own. The
    /// sequence never fails as a whole: every call has its own result, in
    /// the order of the outcomes, and a failure that would be fatal to a
    /// batch is the error of its own call alone.
    pub fn multi_results(&self, outcomes: Vec<CallOutcome>) -> (r: BatchJSONRPCResult)
        ensures
            spec_batch_view(r) == Ok::<Seq<JSONRPCCallResult>, JSONRPCError>(
                spec_multi_slots(self.conf.fail_on_null, self.conf.fail_on_error, outcomes@),
            ),
    {
        let ghost all = outcomes@;
        let ghost fnull = self.conf.fail_on_null;
        let ghost ferr = self.conf.fail_on_error;
        let mut out: Vec<JSONRPCCallResult> = Vec::new();
        for outcome in it: outcomes
            invariant
                it.seq() == all,
                fnull == self.conf.fail_on_null,
                ferr == self.conf.fail_on_error,
                out@.len() == it.index(),
                forall|j: int|
                    0 <= j < it.index() ==> #[trigger] out@[j] == spec_multi_slot(
                        fnull,
                        ferr,
                        all[j],
                    ),
        {
            match self.process_rpc_result(outcome) {
                Ok(slot) => {
                    out.push(slot);
                },
                Err(e) => {
                    out.push(Err(e));
                },
            }
        }
        assert(out@ =~= spec_multi_slots(fnull, ferr, all));
        Ok(out)
    }
}

/// Where the outcomes of a sequence of calls resolve to results, there are
/// as many results as outcomes, and result `i` is the result of outcome
/// `i`: a value stays the value it was, in its place.
pub proof fn lemma_results_keep_length_and_order(
    fail_on_null: bool,
    fail_on_error: bool,
    outcomes: Seq<CallOutcome>,
    results: Seq<JSONRPCCallResult>,
)
    requires
        spec_collect(
            fail_on_null,
            fail_on_error,
            outcomes,
            Ok::<Seq<JSONRPCCallResult>, JSONRPCError>(results),
        ),
    ensures
        results.len() == outcomes.len(),
        forall|i: int|
            0 <= i < outcomes.len() ==> #[trigger] results[i] == spec_slot(
                fail_on_null,
                fail_on_error,
                outcomes[i],
            ),
        forall|i: int|
            0 <= i < outcomes.len() && (#[trigger] outcomes[i]).is_ok() && !(fail_on_null
                && json_is_null(outcomes[i]->Ok_0)) ==> results[i] == Ok::<
                serde_json::Value,
                JSONRPCError,
            >(outcomes[i]->Ok_0),
{
}

/// Where null counts as failure, a call that gave null has the error
/// `NullValue` for its result and never the null value, batched or not.
pub proof fn lemma_null_is_an_error(fail_on_error: bool, v: serde_json::Value)
    requires
        json_is_null(v),
    ensures
        spec_process(true, fail_on_error, Ok::<serde_json::Value, TransportFailure>(v)) == Ok::<
            JSONRPCCallResult,
            JSONRPCError,
        >(Err(JSONRPCError::NullValue)),
        spec_multi_slot(true, fail_on_error, Ok::<serde_json::Value, TransportFailure>(v)) == Err::<
            serde_json::Value,
            JSONRPCError,
        >(JSONRPCError::NullValue),
{
}

/// Where error responses are not to fail the sequence, an error response
/// for call `i` is the soft error of call `i` and changes nothing for any
/// other call: each keeps its result, and whether the sequence fails for
/// another call's sake stays as it was.
pub proof fn lemma_soft_error_is_local(
    fail_on_null: bool,
    outcomes: Seq<CallOutcome>,
    i: int,
    p: crate::result::ErrorPayload,
)
    requires
        0 <= i < outcomes.len(),
    ensures
        ({
            let changed = outcomes.update(
                i,
                Err::<serde_json::Value, TransportFailure>(TransportFailure::ErrorResp(p)),
            );
            &&& !spec_is_fatal(fail_on_null, false, changed[i])
            &&& spec_slot(fail_on_null, false, changed[i]) == Err::<
                serde_json::Value,
                JSONRPCError,
            >(JSONRPCError::Payload(p))
            &&& forall|j: int|
                0 <= j < outcomes.len() && j != i ==> #[trigger] changed[j] == outcomes[j]
            &&& spec_slots(fail_on_null, false, changed) == spec_slots(
                fail_on_null,
                false,
                outcomes,
            ).update(i, Err::<serde_json::Value, JSONRPCError>(JSONRPCError::Payload(p)))
            &&& spec_none_fatal(fail_on_null, false, outcomes) ==> spec_none_fatal(
                fail_on_null,
                false,
                changed,
            )
        }),
{
    let changed = outcomes.update(
        i,
        Err::<serde_json::Value, TransportFailure>(TransportFailure::ErrorResp(p)),
    );
    assert(spec_slots(fail_on_null, false, changed) =~= spec_slots(
        fail_on_null,
        false,
        outcomes,
    ).update(i, Err::<serde_json::Value, JSONRPCError>(JSONRPCError::Payload(p))));
    if spec_none_fatal(fail_on_null, false, outcomes) {
        assert forall|j: int| 0 <= j < changed.len() implies !spec_is_fatal(
            fail_on_null,
            false,
            #[trigger] changed[j],
        ) by {
            if j != i {
                assert(changed[j] == outcomes[j]);
            }
        }
    }
}

} // verus!
