//! Admission control: a fixed pool of permits that bounds the calls in
//! flight. The pool decides who may go; waiting for a permit is the
//! caller's part.

use vstd::prelude::*;

verus! {

/// The admission layer of a client: the size of the pool that each service
/// made from it gets.
#[derive(Clone, Copy, Debug, PartialEq, Eq, Structural)]
pub struct ConcurrencyLimitLayer {
    limit: usize,
}

impl ConcurrencyLimitLayer {
    /// The number of permits.
    pub closed spec fn limit(&self) -> usize {
        self.limit
    }

    /// A layer that admits `limit` calls at once.
    pub fn new(limit: usize) -> (l: ConcurrencyLimitLayer)
        ensures
            l.limit() == limit,
    {
        ConcurrencyLimitLayer { limit }
    }

    /// A fresh pool of this layer's size, with every permit free.
    pub fn layer(&self) -> (s: ConcurrencyLimitService)
        ensures
            s.wf(),
            s.limit() == self.limit(),
            s.in_flight() == 0,
    {
        ConcurrencyLimitService::new(self.limit)
    }
}

/// What a call asks of the pool.
pub enum AdmissionEvent {
    /// A call asks for a permit.
    Request,
    /// A call that is over gives its permit back.
    Release,
}

/// The permits held after `event`, of `limit` that exist: a request takes
/// one if one is free, a release frees one if one is held.
pub open spec fn spec_held_after(limit: nat, held: nat, event: AdmissionEvent) -> nat {
    match event {
        AdmissionEvent::Request => if held < limit {
            held + 1
        } else {
            held
        },
        AdmissionEvent::Release => if held > 0 {
            (held - 1) as nat
        } else {
            held
        },
    }
}

/// The permits held after a sequence of events, taken in order from a pool
/// with every permit free.
pub open spec fn spec_held_after_all(limit: nat, events: Seq<AdmissionEvent>) -> nat
    decreases events.len(),
{
    if events.len() == 0 {
        0
    } else {
        spec_held_after(limit, spec_held_after_all(limit, events.drop_last()), events.last())
    }
}

/// Whatever calls ask and in whatever order, never more permits are held
/// than exist.
pub proof fn lemma_never_over_limit(limit: nat, events: Seq<AdmissionEvent>)
    ensures
        spec_held_after_all(limit, events) <= limit,
    decreases events.len(),
{
    if events.len() > 0 {
        lemma_never_over_limit(limit, events.drop_last());
    }
}

/// One unit of the budget. It is handed out by `try_acquire` and given back
/// to `release`, which takes it for good: a permit is released once.
#[derive(Debug)]
pub struct Permit {
    _private: (),
}

/// The permit pool of one client, shared by all its calls.
#[derive(Debug)]
pub struct ConcurrencyLimitService {
    limit: usize,
    held: usize,
}

impl ConcurrencyLimitService {
    /// The number of permits that exist.
    pub closed spec fn limit(&self) -> usize {
        self.limit
    }

    /// The number of permits that calls hold.
    pub closed spec fn in_flight(&self) -> usize {
        self.held
    }

    /// Never more permits are held than exist.
    pub open spec fn wf(&self) -> bool {
        self.in_flight() <= self.limit()
    }

    /// A pool of `limit` permits, all free.
    pub fn new(limit: usize) -> (s: ConcurrencyLimitService)
        ensures
            s.wf(),
            s.limit() == limit,
            s.in_flight() == 0,
    {
        ConcurrencyLimitService { limit, held: 0 }
    }

    /// The number of free permits.
    pub fn available(&self) -> (n: usize)
        requires
            self.wf(),
        ensures
            n == self.limit() - self.in_flight(),
    {
        self.limit - self.held
    }

    /// The number of permits that calls hold.
    pub fn held(&self) -> (n: usize)
        ensures
            n == self.in_flight(),
    {
        self.held
    }

    /// Admits a call if a permit is free: the call then holds the permit
    /// until it hands it to `release`. With no permit free the pool stays
    /// as it is and the call has to wait.
    pub fn try_acquire(&mut self) -> (p: Option<Permit>)
        requires
            old(self).wf(),
        ensures
            final(self).wf(),
            final(self).limit() == old(self).limit(),
            p.is_some() <==> old(self).in_flight() < old(self).limit(),
            final(self).in_flight() == spec_held_after(
                old(self).limit() as nat,
                old(self).in_flight() as nat,
                AdmissionEvent::Request,
            ),
            p.is_some() ==> final(self).in_flight() == old(self).in_flight() + 1,
            p.is_none() ==> final(self).in_flight() == old(self).in_flight(),
    {
        if self.held < self.limit {
            self.held = self.held + 1;
            Some(Permit { _private: () })
        } else {
            None
        }
    }

    /// Takes back the permit of a call that is over, however it ended.
    pub fn release(&mut self, permit: Permit)
        requires
            old(self).wf(),
            old(self).in_flight() > 0,
        ensures
            final(self).wf(),
            final(self).limit() == old(self).limit(),
            final(self).in_flight() == old(self).in_flight() - 1,
            final(self).in_flight() == spec_held_after(
                old(self).limit() as nat,
                old(self).in_flight() as nat,
                AdmissionEvent::Release,
            ),
    {
        let _ = permit;
        self.held = self.held - 1;
    }
}

} // verus!
