//! Retrying one logical call: the configuration, the per-call state machine
//! and the step it takes after each failed attempt.
//!
//! The caller sends the request and sleeps; this module decides. A call
//! starts in `Attempting`. A failed attempt ends the call (not retryable, or
//! retrying given up) or sends it to `BackingOff` with the delay to sleep;
//! waking up starts the next attempt.

use vstd::prelude::*;
use crate::classifier::{hint_in_data, payload_in_body, payload_is_retry_err, spec_backoff_hint, spec_should_retry, status_listed};
use crate::delay::{spec_in_range, Backoff, BackoffParameters, Delay};
use crate::result::TransportFailure;

verus! {

/// The retry parameters of a client. The three lengths of time and the two
/// factors shape the exponential backoff of each call; the factors are
/// held in thousandths.
#[derive(Debug)]
pub struct RetryConfig {
    /// HTTP statuses after which an attempt is repeated.
    pub retryable_status_codes: Vec<u16>,
    /// The first backoff interval.
    pub initial_interval: Delay,
    /// How far a delay may lie from its interval to either side, in
    /// thousandths of the interval.
    pub randomization_permille: u32,
    /// The factor by which the interval grows from attempt to attempt, in
    /// thousandths.
    pub multiplier_permille: u32,
    /// The interval beyond which the backoff does not grow.
    pub max_interval: Delay,
    /// The time after which the backoff gives no further delay.
    pub max_elapsed_time: Delay,
    /// The number of attempts after which a further failure ends the call.
    pub max_tries: u32,
}

/// A retry configuration as contracts see it.
pub struct RetryConfigView {
    pub retryable_status_codes: Seq<u16>,
    pub initial_interval: Delay,
    pub randomization_permille: u32,
    pub multiplier_permille: u32,
    pub max_interval: Delay,
    pub max_elapsed_time: Delay,
    pub max_tries: u32,
}

impl RetryConfigView {
    /// What the backoff of a call under these rules is made with.
    pub open spec fn spec_backoff_parameters(&self) -> BackoffParameters {
        BackoffParameters {
            initial_interval: self.initial_interval,
            max_interval: self.max_interval,
            max_elapsed_time: self.max_elapsed_time,
            randomization_permille: self.randomization_permille,
            multiplier_permille: self.multiplier_permille,
        }
    }
}

impl View for RetryConfig {
    type V = RetryConfigView;

    open spec fn view(&self) -> RetryConfigView {
        RetryConfigView {
            retryable_status_codes: self.retryable_status_codes@,
            initial_interval: self.initial_interval,
            randomization_permille: self.randomization_permille,
            multiplier_permille: self.multiplier_permille,
            max_interval: self.max_interval,
            max_elapsed_time: self.max_elapsed_time,
            max_tries: self.max_tries,
        }
    }
}

impl Clone for RetryConfig {
    fn clone(&self) -> (r: Self)
        ensures
            r@ == self@,
    {
        RetryConfig {
            retryable_status_codes: self.retryable_status_codes.clone(),
            initial_interval: self.initial_interval,
            randomization_permille: self.randomization_permille,
            multiplier_permille: self.multiplier_permille,
            max_interval: self.max_interval,
            max_elapsed_time: self.max_elapsed_time,
            max_tries: self.max_tries,
        }
    }
}

/// Where one logical call stands.
#[derive(Clone, Copy, Debug, PartialEq, Eq, Structural)]
pub enum RetryPhase {
    /// An attempt is under way.
    Attempting,
    /// The last attempt failed and the call sleeps before the next.
    BackingOff,
    /// An attempt gave a response: the call is over.
    Succeeded,
    /// An attempt failed in a way that no retry mends: the call is over.
    NonRetryableFailure,
    /// Retrying was given up: the call is over.
    Exhausted,
}

/// The state of one logical call. It belongs to that call alone.
#[derive(Clone, Copy, Debug, PartialEq, Eq, Structural)]
pub struct RetryState {
    pub phase: RetryPhase,
    /// The attempts begun so far, the one under way included.
    pub tries: u64,
    /// The attempts after which a further failure ends the call.
    pub max_tries: u32,
}

/// What happens to a call, as far as its state is concerned.
pub enum RetryEvent {
    /// The attempt gave a response.
    Response,
    /// The attempt failed; `retryable` is the classifier's verdict, `delay`
    /// the delay on offer for the next attempt.
    Failure { retryable: bool, delay: Option<Delay> },
    /// The sleep is over.
    Wake,
}

/// What the caller does after a failed attempt.
#[derive(Debug)]
pub enum RetryStep {
    /// Sleep this long, then send the same request again.
    Retry(Delay),
    /// Give the call up with this failure.
    Fail(TransportFailure),
}

/// The delay before the next attempt: the endpoint's hint where it gave
/// one, else what the backoff computed.
pub open spec fn spec_next_delay(hint: Option<Delay>, computed: Option<Delay>) -> Option<Delay> {
    match hint {
        Some(d) => Some(d),
        None => computed,
    }
}

/// Chooses the delay before the next attempt from the endpoint's hint and
/// the backoff's delay.
pub fn next_delay(hint: Option<Delay>, computed: Option<Delay>) -> (r: Option<Delay>)
    ensures
        r == spec_next_delay(hint, computed),
        hint.is_some() ==> r == hint,
{
    match hint {
        Some(d) => Some(d),
        None => computed,
    }
}

impl RetryState {
    /// The state of a call whose first attempt is under way.
    pub open spec fn spec_new(max_tries: u32) -> RetryState {
        RetryState { phase: RetryPhase::Attempting, tries: 1, max_tries }
    }

    /// At least one attempt was begun and at most one more than
    /// `max_tries`; a call that sleeps has attempts left.
    pub open spec fn wf(&self) -> bool {
        &&& 1 <= self.tries <= self.max_tries + 1
        &&& self.phase == RetryPhase::BackingOff ==> self.tries <= self.max_tries
    }

    /// The call is over.
    pub open spec fn spec_is_terminal(&self) -> bool {
        self.phase == RetryPhase::Succeeded || self.phase == RetryPhase::NonRetryableFailure
            || self.phase == RetryPhase::Exhausted
    }

    /// The phase after a failed attempt: the failure ends the call where it
    /// is not retryable; retrying is given up where the attempts begun
    /// exceed `max_tries` or there is no delay to be had; else the call
    /// sleeps.
    pub open spec fn spec_after_failure(&self, retryable: bool, delay: Option<Delay>) -> RetryPhase {
        if !retryable {
            RetryPhase::NonRetryableFailure
        } else if self.tries > self.max_tries || delay.is_none() {
            RetryPhase::Exhausted
        } else {
            RetryPhase::BackingOff
        }
    }

    /// The state after `event`. An event that cannot happen in the state's
    /// phase leaves the state as it is.
    pub open spec fn spec_step(&self, event: RetryEvent) -> RetryState {
        match event {
            RetryEvent::Response => if self.phase == RetryPhase::Attempting {
                RetryState { phase: RetryPhase::Succeeded, ..*self }
            } else {
                *self
            },
            RetryEvent::Failure { retryable, delay } => if self.phase == RetryPhase::Attempting {
                RetryState { phase: self.spec_after_failure(retryable, delay), ..*self }
            } else {
                *self
            },
            RetryEvent::Wake => if self.phase == RetryPhase::BackingOff {
                RetryState { phase: RetryPhase::Attempting, tries: (self.tries + 1) as u64, ..*self }
            } else {
                *self
            },
        }
    }

    /// The state after a sequence of events, taken in order.
    pub open spec fn spec_run(&self, events: Seq<RetryEvent>) -> RetryState
        decreases events.len(),
    {
        if events.len() == 0 {
            *self
        } else {
            self.spec_run(events.drop_last()).spec_step(events.last())
        }
    }

    /// Starts a call: its first attempt is under way.
    pub fn new(max_tries: u32) -> (s: RetryState)
        ensures
            s == RetryState::spec_new(max_tries),
            s.wf(),
    {
        RetryState { phase: RetryPhase::Attempting, tries: 1, max_tries }
    }

    /// Whether the call is over.
    pub fn is_terminal(&self) -> (r: bool)
        ensures
            r == self.spec_is_terminal(),
    {
        match self.phase {
            RetryPhase::Succeeded => true,
            RetryPhase::NonRetryableFailure => true,
            RetryPhase::Exhausted => true,
            _ => false,
        }
    }

    /// The attempt under way gave a response.
    pub fn on_success(&mut self)
        requires
            old(self).wf(),
            old(self).phase == RetryPhase::Attempting,
        ensures
            *final(self) == old(self).spec_step(RetryEvent::Response),
            final(self).phase == RetryPhase::Succeeded,
            final(self).wf(),
    {
        self.phase = RetryPhase::Succeeded;
    }

    /// The sleep is over: the next attempt begins.
    pub fn on_wake(&mut self)
        requires
            old(self).wf(),
            old(self).phase == RetryPhase::BackingOff,
        ensures
            *final(self) == old(self).spec_step(RetryEvent::Wake),
            final(self).phase == RetryPhase::Attempting,
            final(self).tries == old(self).tries + 1,
            final(self).wf(),
    {
        self.phase = RetryPhase::Attempting;
        self.tries = self.tries + 1;
    }

    /// The step after a failed attempt, once the classifier has spoken and
    /// the delay on offer is known. A failure that is not retryable is
    /// handed back as it is. Where retrying is given up, the failure comes
    /// back wrapped in `RetriesExhausted`. Else the call sleeps for the
    /// delay.
    pub open spec fn spec_settle(
        &self,
        failure: TransportFailure,
        retryable: bool,
        delay: Option<Delay>,
    ) -> RetryStep {
        match self.spec_after_failure(retryable, delay) {
            RetryPhase::NonRetryableFailure => RetryStep::Fail(failure),
            RetryPhase::BackingOff => RetryStep::Retry(delay.unwrap()),
            _ => RetryStep::Fail(TransportFailure::RetriesExhausted { last: Box::new(failure) }),
        }
    }

    /// Takes the step after a failed attempt from the classifier's verdict
    /// and the delay on offer.
    pub fn settle(&mut self, failure: TransportFailure, retryable: bool, delay: Option<Delay>) -> (step:
        RetryStep)
        requires
            old(self).wf(),
            old(self).phase == RetryPhase::Attempting,
        ensures
            *final(self) == old(self).spec_step(RetryEvent::Failure { retryable, delay }),
            step == old(self).spec_settle(failure, retryable, delay),
            final(self).wf(),
            final(self).phase == RetryPhase::BackingOff <==> step is Retry,
            step is Fail ==> final(self).spec_is_terminal(),
    {
        if !retryable {
            self.phase = RetryPhase::NonRetryableFailure;
            return RetryStep::Fail(failure);
        }
        match delay {
            Some(d) => {
                if self.tries > self.max_tries as u64 {
                    self.phase = RetryPhase::Exhausted;
                    RetryStep::Fail(TransportFailure::RetriesExhausted { last: Box::new(failure) })
                } else {
                    self.phase = RetryPhase::BackingOff;
                    RetryStep::Retry(d)
                }
            },
            None => {
                self.phase = RetryPhase::Exhausted;
                RetryStep::Fail(TransportFailure::RetriesExhausted { last: Box::new(failure) })
            },
        }
    }
}

/// Every state that a call reaches is well formed: the attempts begun never
/// exceed `max_tries + 1`, and a call that sleeps has begun at most
/// `max_tries`.
pub proof fn lemma_run_keeps_wf(start: RetryState, events: Seq<RetryEvent>)
    requires
        start.wf(),
    ensures
        start.spec_run(events).wf(),
        start.spec_run(events).max_tries == start.max_tries,
        start.spec_run(events).tries >= start.tries,
    decreases events.len(),
{
    if events.len() > 0 {
        lemma_run_keeps_wf(start, events.drop_last());
    }
}

/// However a call goes, it begins at most `max_tries + 1` attempts: the
/// failure of attempt `max_tries + 1`, where it is retryable, ends the call
/// as exhausted, and so does any retryable failure for which no delay is to
/// be had.
pub proof fn lemma_attempts_bounded(max_tries: u32, events: Seq<RetryEvent>)
    ensures
        RetryState::spec_new(max_tries).spec_run(events).tries <= max_tries + 1,
        RetryState::spec_new(max_tries).spec_run(events).phase == RetryPhase::BackingOff
            ==> RetryState::spec_new(max_tries).spec_run(events).tries <= max_tries,
{
    lemma_run_keeps_wf(RetryState::spec_new(max_tries), events);
}

/// Whether event `k` sends the call to sleep after attempt `max_tries`: the
/// one way in which a call comes to begin attempt `max_tries + 1`.
pub open spec fn spec_backs_off_at_limit(start: RetryState, events: Seq<RetryEvent>, k: int) -> bool {
    let before = start.spec_run(events.take(k));
    &&& before.phase == RetryPhase::Attempting
    &&& before.tries == before.max_tries
    &&& events[k] matches RetryEvent::Failure { retryable, delay }
    &&& retryable
    &&& delay.is_some()
}

/// A call begins at most `max_tries` attempts, unless attempt `max_tries`
/// itself fails in a retryable way with a delay to be had: such a failure
/// still sends the call to sleep, and the attempt after it is the last.
pub proof fn lemma_attempts_within_max_tries(max_tries: u32, events: Seq<RetryEvent>)
    requires
        max_tries >= 1,
        forall|k: int|
            0 <= k < events.len() ==> !#[trigger] spec_backs_off_at_limit(
                RetryState::spec_new(max_tries),
                events,
                k,
            ),
    ensures
        RetryState::spec_new(max_tries).spec_run(events).tries <= max_tries,
        RetryState::spec_new(max_tries).spec_run(events).phase == RetryPhase::BackingOff
            ==> RetryState::spec_new(max_tries).spec_run(events).tries < max_tries,
    decreases events.len(),
{
    let start = RetryState::spec_new(max_tries);
    lemma_run_keeps_wf(start, events);
    if events.len() > 0 {
        let shorter = events.drop_last();
        let k = events.len() - 1;
        assert forall|j: int| 0 <= j < shorter.len() implies !#[trigger] spec_backs_off_at_limit(
            start,
            shorter,
            j,
        ) by {
            assert(shorter.take(j) =~= events.take(j));
            assert(shorter[j] == events[j]);
            assert(!spec_backs_off_at_limit(start, events, j));
        }
        lemma_attempts_within_max_tries(max_tries, shorter);
        lemma_run_keeps_wf(start, shorter);
        assert(events.take(k) =~= shorter);
        assert(!spec_backs_off_at_limit(start, events, k));
    }
}

/// A retryable failure never leaves a call sleeping once the attempts begun
/// exceed `max_tries`, or when there is no delay to be had: the call is then
/// exhausted.
pub proof fn lemma_exhaustion(state: RetryState, delay: Option<Delay>)
    requires
        state.wf(),
        state.phase == RetryPhase::Attempting,
        state.tries > state.max_tries || delay.is_none(),
    ensures
        state.spec_step(RetryEvent::Failure { retryable: true, delay }).phase
            == RetryPhase::Exhausted,
        forall|f: TransportFailure| #[trigger]
            state.spec_settle(f, true, delay) == RetryStep::Fail(
                TransportFailure::RetriesExhausted { last: Box::new(f) },
            ),
{
}

/// Once a call is over, nothing moves it: no further attempt is begun.
pub proof fn lemma_terminal_is_final(state: RetryState, events: Seq<RetryEvent>)
    requires
        state.spec_is_terminal(),
    ensures
        state.spec_run(events) == state,
    decreases events.len(),
{
    if events.len() > 0 {
        lemma_terminal_is_final(state, events.drop_last());
    }
}

/// The retry rules of one client, ready to drive its calls.
#[derive(Debug)]
pub struct RetryService {
    pub conf: RetryConfig,
}

impl RetryService {
    /// Whether trying again can help after `err`. An HTTP status is judged
    /// by the configured list, a failure of the transport by the transport's
    /// own report, an error response by its code and message, an undecodable
    /// body by the error payload it holds; nothing else is retried.
    pub fn should_retry(&self, err: &TransportFailure) -> (r: bool)
        ensures
            r == spec_should_retry(self.conf.retryable_status_codes@, *err),
    {
        match err {
            TransportFailure::HttpError { status, .. } => status_listed(
                &self.conf.retryable_status_codes,
                *status,
            ),
            TransportFailure::Transport { retryable, .. } => *retryable,
            TransportFailure::DeserError { text, .. } => match payload_in_body(text.as_str()) {
                Some(p) => payload_is_retry_err(&p),
                None => false,
            },
            TransportFailure::ErrorResp(p) => payload_is_retry_err(p),
            _ => false,
        }
    }

    /// The delay that `err` itself asks for: the numeric rate-limit hint in
    /// the data of an error response, as it stands where it is a whole
    /// number of seconds and rounded up to the next whole second where it
    /// is not.
    pub fn backoff_hint(&self, err: &TransportFailure) -> (r: Option<Delay>)
        ensures
            r == spec_backoff_hint(*err),
            r matches Some(d) ==> d.wf(),
    {
        match err {
            TransportFailure::ErrorResp(p) => match &p.data {
                Some(d) => hint_in_data(d.as_str()),
                None => None,
            },
            _ => None,
        }
    }

    /// Starts a call under these rules.
    pub fn begin(&self) -> (s: RetryState)
        ensures
            s == RetryState::spec_new(self.conf.max_tries),
            s.wf(),
    {
        RetryState::new(self.conf.max_tries)
    }

    /// The backoff of a call under these rules, its clock started now,
    /// made with the intervals, the time and the factors of the rules, each
    /// in its own place. `None` where one of the three lengths of time is
    /// out of range.
    pub fn new_backoff(&self) -> (r: Option<Backoff>)
        ensures
            r.is_some() <==> spec_in_range(self.conf.initial_interval) && spec_in_range(
                self.conf.max_interval,
            ) && spec_in_range(self.conf.max_elapsed_time),
            r matches Some(b) ==> b.parameters() == self.conf@.spec_backoff_parameters(),
            r matches Some(b) ==> b.current_interval() == self.conf.initial_interval,
    {
        Backoff::new(
            self.conf.initial_interval,
            self.conf.max_interval,
            self.conf.max_elapsed_time,
            self.conf.randomization_permille,
            self.conf.multiplier_permille,
        )
    }

    /// The step after the attempt under way failed with `failure`.
    ///
    /// A failure that is not retryable ends the call and comes back as it
    /// is; the backoff is not touched. For a retryable failure the delay is
    /// the failure's own hint where it has one, and the backoff is then not
    /// touched either; else the backoff is asked, and whatever it answers
    /// the step is the one that `settle` takes for that answer: a delay
    /// that the backoff gives lies within the time it was given and in the
    /// range around its current interval, and the backoff has then moved
    /// on by one interval.
    pub fn on_failure(
        &self,
        state: &mut RetryState,
        failure: TransportFailure,
        backoff: &mut Backoff,
    ) -> (step: RetryStep)
        requires
            old(state).wf(),
            old(state).phase == RetryPhase::Attempting,
        ensures
            final(state).wf(),
            final(state).tries == old(state).tries,
            final(state).max_tries == old(state).max_tries,
            final(state).phase == RetryPhase::BackingOff <==> step is Retry,
            step is Fail ==> final(state).spec_is_terminal(),
            !spec_should_retry(self.conf.retryable_status_codes@, failure) ==> {
                &&& step == RetryStep::Fail(failure)
                &&& final(state).phase == RetryPhase::NonRetryableFailure
                &&& *final(backoff) == *old(backoff)
            },
            spec_should_retry(self.conf.retryable_status_codes@, failure) && spec_backoff_hint(
                failure,
            ).is_some() ==> {
                &&& step == old(state).spec_settle(failure, true, spec_backoff_hint(failure))
                &&& *final(state) == old(state).spec_step(
                    RetryEvent::Failure { retryable: true, delay: spec_backoff_hint(failure) },
                )
                &&& *final(backoff) == *old(backoff)
            },
            spec_should_retry(self.conf.retryable_status_codes@, failure) && spec_backoff_hint(
                failure,
            ).is_none() ==> exists|computed: Option<Delay>|
                {
                    &&& step == old(state).spec_settle(failure, true, computed)
                    &&& *final(state) == old(state).spec_step(
                        RetryEvent::Failure { retryable: true, delay: computed },
                    )
                },
            spec_should_retry(self.conf.retryable_status_codes@, failure) && old(state).tries > old(
                state,
            ).max_tries ==> step == RetryStep::Fail(
                TransportFailure::RetriesExhausted { last: Box::new(failure) },
            ),
            step matches RetryStep::Retry(d) ==> d.wf(),
            final(backoff).parameters() == old(backoff).parameters(),
            spec_backoff_hint(failure).is_none() ==> (step matches RetryStep::Retry(d) ==> old(
                backoff,
            ).spec_can_give(d) && old(backoff).spec_moves_on_to(*final(backoff))),
    {
        if !self.should_retry(&failure) {
            return state.settle(failure, false, None);
        }
        let hint = self.backoff_hint(&failure);
        let computed = if hint.is_none() {
            backoff.next()
        } else {
            None
        };
        state.settle(failure, true, next_delay(hint, computed))
    }
}

/// The retry layer of a client: it holds the rules and hands them to each
/// service it wraps.
#[derive(Debug)]
pub struct RetryLayer {
    conf: RetryConfig,
}

impl RetryLayer {
    /// The rules that this layer hands on.
    pub closed spec fn conf(&self) -> RetryConfigView {
        self.conf@
    }

    /// A layer that retries by `conf`.
    pub fn new(conf: RetryConfig) -> (l: RetryLayer)
        ensures
            l.conf() == conf@,
    {
        RetryLayer { conf }
    }

    /// The retry service of this layer, with a copy of its rules.
    pub fn layer(&self) -> (s: RetryService)
        ensures
            s.conf@ == self.conf(),
    {
        RetryService { conf: self.conf.clone() }
    }
}

/// A hint overrides the backoff: while attempts are left, a retryable
/// failure that carries a hint sends the call to sleep for exactly the hint,
/// whatever the backoff would have given.
pub proof fn lemma_hint_overrides(
    state: RetryState,
    failure: TransportFailure,
    hint: Delay,
    computed: Option<Delay>,
)
    requires
        state.tries <= state.max_tries,
    ensures
        spec_next_delay(Some(hint), computed) == Some(hint),
        state.spec_settle(failure, true, spec_next_delay(Some(hint), computed)) == RetryStep::Retry(
            hint,
        ),
{
}

} // verus!
