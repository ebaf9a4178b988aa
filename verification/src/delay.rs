//! Lengths of time as whole numbers, and the exponential backoff that hands
//! out the delay before the next attempt.

use vstd::prelude::*;

verus! {

pub const NANOS_PER_SEC: u32 = 1_000_000_000;

pub const NANOS_PER_MILLI: u32 = 1_000_000;

/// A length of time: whole seconds and the nanoseconds beyond them.
#[derive(Clone, Copy, Debug, PartialEq, Eq, Structural)]
pub struct Delay {
    pub secs: u64,
    pub nanos: u32,
}

impl Delay {
    /// The nanoseconds stay below one second.
    pub open spec fn wf(&self) -> bool {
        self.nanos < NANOS_PER_SEC
    }

    /// The length in nanoseconds.
    pub open spec fn total_nanos(&self) -> nat {
        (self.secs * NANOS_PER_SEC + self.nanos) as nat
    }

    /// A delay of `secs` whole seconds.
    pub fn from_secs(secs: u64) -> (d: Delay)
        ensures
            d == (Delay { secs, nanos: 0 }),
            d.wf(),
            d.total_nanos() == secs * NANOS_PER_SEC,
    {
        Delay { secs, nanos: 0 }
    }

    /// A delay of `millis` milliseconds.
    pub fn from_millis(millis: u64) -> (d: Delay)
        ensures
            d.wf(),
            d.secs == millis / 1000,
            d.nanos == (millis % 1000) * NANOS_PER_MILLI,
            d.total_nanos() == millis * NANOS_PER_MILLI,
    {
        let rest: u64 = millis % 1000;
        let nanos: u32 = (rest as u32) * NANOS_PER_MILLI;
        let d = Delay { secs: millis / 1000, nanos };
        assert(d.total_nanos() == millis * NANOS_PER_MILLI) by {
            assert(millis == 1000 * (millis / 1000) + millis % 1000);
            assert((millis / 1000) * 1_000_000_000 == (millis / 1000) * 1000 * 1_000_000) by (nonlinear_arith);
        }
        d
    }
}

/// The longest length of time, in whole seconds, that a backoff is built
/// from.
pub const MAX_BACKOFF_SECS: u64 = 4_294_967_295;

/// Whether a backoff can be built from this length of time.
pub open spec fn spec_in_range(d: Delay) -> bool {
    d.wf() && d.secs <= MAX_BACKOFF_SECS
}

/// The longest length of time that a backoff is built from.
pub open spec fn spec_longest() -> Delay {
    Delay { secs: MAX_BACKOFF_SECS, nanos: 999_999_999 }
}

impl Delay {
    /// This length of time as a backoff can take it: the same length, its
    /// nanoseconds below one second, or the longest length that a backoff
    /// is built from where this one is longer.
    pub fn capped(self) -> (r: Delay)
        ensures
            spec_in_range(r),
            spec_in_range(self) ==> r == self,
            r.total_nanos() == if self.total_nanos() <= spec_longest().total_nanos() {
                self.total_nanos()
            } else {
                spec_longest().total_nanos()
            },
    {
        let longest = Delay { secs: MAX_BACKOFF_SECS, nanos: 999_999_999 };
        if self.secs > MAX_BACKOFF_SECS {
            assert(self.total_nanos() > longest.total_nanos()) by (nonlinear_arith)
                requires
                    self.secs >= 4_294_967_296,
                    self.total_nanos() == self.secs * 1_000_000_000 + self.nanos,
                    longest.total_nanos() == 4_294_967_295 * 1_000_000_000 + 999_999_999,
            ;
            return longest;
        }
        let carry: u32 = self.nanos / NANOS_PER_SEC;
        let secs: u64 = self.secs + carry as u64;
        let nanos: u32 = self.nanos % NANOS_PER_SEC;
        assert(secs * 1_000_000_000 + nanos == self.total_nanos()) by (nonlinear_arith)
            requires
                secs == self.secs + carry,
                self.nanos == carry * 1_000_000_000 + nanos,
                self.total_nanos() == self.secs * 1_000_000_000 + self.nanos,
        ;
        if secs > MAX_BACKOFF_SECS {
            assert(self.total_nanos() > longest.total_nanos()) by (nonlinear_arith)
                requires
                    secs >= 4_294_967_296,
                    nanos >= 0,
                    self.total_nanos() == secs * 1_000_000_000 + nanos,
                    longest.total_nanos() == 4_294_967_295 * 1_000_000_000 + 999_999_999,
            ;
            return longest;
        }
        let r = Delay { secs, nanos };
        assert(r.total_nanos() <= longest.total_nanos()) by (nonlinear_arith)
            requires
                secs <= 4_294_967_295,
                nanos <= 999_999_999,
                r.total_nanos() == secs * 1_000_000_000 + nanos,
                longest.total_nanos() == 4_294_967_295 * 1_000_000_000 + 999_999_999,
        ;
        r
    }
}

/// The reach below which the backoff's arithmetic is exact to the
/// nanosecond: two to the power 40 nanoseconds, some eighteen minutes.
pub const EXACT_REACH_NANOS: u64 = 1_099_511_627_776;

/// The nanoseconds by which a length that the backoff computes may lie off
/// the exact one, for lengths of up to `reach` nanoseconds. The backoff
/// computes in doubles and cuts the result down to whole nanoseconds: up to
/// `EXACT_REACH_NANOS` that costs less than two nanoseconds. Beyond, a
/// double no longer holds every nanosecond, and the seconds and the
/// nanoseconds of a result are taken from it apart: that costs up to a
/// second and two to the power -40 of the reach.
pub open spec fn spec_slack(reach: int) -> int {
    if reach < EXACT_REACH_NANOS {
        2
    } else {
        1_000_000_002 + reach / (EXACT_REACH_NANOS as int)
    }
}

/// Whether a delay can be drawn around an interval: it lies no more than
/// the randomization factor times the interval below the interval and no
/// more than that above it, but for the slack. Delay and interval are in
/// nanoseconds, the factor in thousandths.
pub open spec fn spec_in_jitter_range(delay: int, interval: int, randomization_permille: int) -> bool {
    let slack = spec_slack(interval * (1000 + randomization_permille) / 1000 + 1);
    &&& delay * 1000 + slack * 1000 >= interval * (1000 - randomization_permille)
    &&& delay * 1000 <= interval * (1000 + randomization_permille) + slack * 1000
}

/// Whether an interval can follow another: it is the longest interval
/// where the multiplier takes the interval before it that far, and else
/// that interval times the multiplier, but for the slack. The intervals
/// are in nanoseconds, the multiplier in thousandths.
pub open spec fn spec_grown(next: int, interval: int, multiplier_permille: int, longest: int) -> bool {
    let target = interval * multiplier_permille;
    let reach = if target / 1000 >= longest {
        target / 1000 + 1
    } else {
        longest + 1
    };
    let slack = spec_slack(reach);
    ||| (next == longest && target + slack * 1000 >= longest * 1000)
    ||| {
        &&& next * 1000 + slack * 1000 >= target
        &&& next * 1000 <= target + slack * 1000
        &&& target <= longest * 1000 + slack * 1000
    }
}

/// Up to the exact reach, a delay in the range around an interval lies no
/// more than two nanoseconds below the interval less the randomization
/// factor times the interval, and no more than two above the interval more
/// that.
pub proof fn lemma_jitter_range_to_the_nanosecond(
    delay: int,
    interval: int,
    randomization_permille: int,
)
    requires
        spec_in_jitter_range(delay, interval, randomization_permille),
        interval * (1000 + randomization_permille) / 1000 + 1 < EXACT_REACH_NANOS,
    ensures
        delay * 1000 >= interval * (1000 - randomization_permille) - 2000,
        delay * 1000 <= interval * (1000 + randomization_permille) + 2000,
{
}

/// The first delay of a backoff that starts at a hundred milliseconds and
/// scatters by a half lies between fifty and a hundred and fifty
/// milliseconds, within two nanoseconds.
pub proof fn lemma_first_delay_by_default(delay: int)
    requires
        spec_in_jitter_range(delay, 100_000_000, 500),
    ensures
        49_999_998 <= delay <= 150_000_002,
{
}

/// With no scatter, a delay is its interval, within the slack.
pub proof fn lemma_no_scatter(delay: int, interval: int)
    requires
        spec_in_jitter_range(delay, interval, 0),
        0 <= interval,
    ensures
        interval - spec_slack(interval + 1) <= delay <= interval + spec_slack(interval + 1),
{
}

/// `backoff::exponential::ExponentialBackoff`, carried through as an opaque
/// value: its intervals, its factors and its clock are the outside crate's.
#[verifier::external_type_specification]
#[verifier::external_body]
#[verifier::reject_recursive_types(C)]
pub struct ExExponentialBackoff<C>(backoff::exponential::ExponentialBackoff<C>);

/// `backoff::SystemClock`, the clock of the machine.
#[verifier::external_type_specification]
#[verifier::external_body]
pub struct ExSystemClock(backoff::SystemClock);

/// The exponential backoff of one logical call. It starts at an initial
/// interval, grows by a multiplier up to a longest interval, scatters each
/// delay at random around the current interval, and gives no delay once the
/// time it was given is spent. It can only be made by `Backoff::new`.
#[derive(Debug)]
pub struct Backoff {
    inner: backoff::exponential::ExponentialBackoff<backoff::SystemClock>,
}

/// What a backoff is made with.
pub struct BackoffParameters {
    /// The first interval.
    pub initial_interval: Delay,
    /// The interval beyond which the backoff does not grow.
    pub max_interval: Delay,
    /// The time after which the backoff gives no further delay.
    pub max_elapsed_time: Delay,
    /// How far a delay may lie from its interval to either side, in
    /// thousandths of the interval.
    pub randomization_permille: u32,
    /// The factor by which the interval grows from delay to delay, in
    /// thousandths.
    pub multiplier_permille: u32,
}

/// What an exponential backoff was built with: its fields
/// `initial_interval`, `max_interval` and `max_elapsed_time` as lengths of
/// time, and its fields `randomization_factor` and `multiplier` as the
/// thousandths they were made from. These fields are set when the backoff
/// is built and stay as they are from then on.
pub uninterp spec fn backoff_parameters(
    b: backoff::exponential::ExponentialBackoff<backoff::SystemClock>,
) -> BackoffParameters;

/// The interval that an exponential backoff draws its next delay around:
/// its field `current_interval`, as a length of time.
pub uninterp spec fn backoff_current_interval(
    b: backoff::exponential::ExponentialBackoff<backoff::SystemClock>,
) -> Delay;

/// Trusted: builds the backoff with `backoff::ExponentialBackoffBuilder`
/// on the system clock. The three lengths of time go in as `Duration`s; the
/// two factors, given in thousandths, go in as the floats that a `Duration`
/// of as many milliseconds makes in seconds. Of the result it is claimed
/// what it was built with: the builder stores each of the five as it is
/// given, each under its own name, and starts the current interval at the
/// initial one. Its clock starts when it is built.
#[verifier::external_body]
fn build_backoff(
    initial_interval: Delay,
    max_interval: Delay,
    max_elapsed_time: Delay,
    randomization_permille: u32,
    multiplier_permille: u32,
) -> (b: Backoff)
    requires
        spec_in_range(initial_interval),
        spec_in_range(max_interval),
        spec_in_range(max_elapsed_time),
    ensures
        backoff_parameters(b.inner) == (BackoffParameters {
            initial_interval,
            max_interval,
            max_elapsed_time,
            randomization_permille,
            multiplier_permille,
        }),
        backoff_current_interval(b.inner) == initial_interval,
{
    let randomization = std::time::Duration::from_millis(randomization_permille.into());
    let multiplier = std::time::Duration::from_millis(multiplier_permille.into());
    let inner = backoff::ExponentialBackoffBuilder::new()
        .with_initial_interval(std::time::Duration::new(initial_interval.secs, initial_interval.nanos))
        .with_max_interval(std::time::Duration::new(max_interval.secs, max_interval.nanos))
        .with_max_elapsed_time(Some(std::time::Duration::new(max_elapsed_time.secs, max_elapsed_time.nanos)))
        .with_randomization_factor(randomization.as_secs_f64())
        .with_multiplier(multiplier.as_secs_f64())
        .build();
    Backoff { inner }
}

/// Trusted: calls `Backoff::next_backoff` of the outside crate and splits
/// the `Duration` it returns into seconds and nanoseconds. Whether a delay
/// is given depends on the time that has gone by, so that is not claimed.
/// What the outside function shows of every outcome:
///
/// - A delay is drawn at random between the current interval less the
///   randomization factor times the interval, and the current interval
///   more that and a nanosecond.
/// - A delay is handed out only where the time gone by and the delay
///   together stay within `max_elapsed_time`, so it is no longer than
///   that. Its nanoseconds stay below one second, as
///   `Duration::subsec_nanos` documents.
/// - Where the time was not spent before the call, delay or none, the
///   current interval moves on: to `max_interval` where the multiplier
///   takes it that far, else to the interval times the multiplier. Where
///   the time was spent, the current interval stays.
/// - What the backoff was built with stays as it is.
///
/// The outside function computes in doubles, from factors that are doubles
/// too, and cuts its results down to whole nanoseconds; `spec_slack` is the
/// room that this takes.
///
/// The outside function adds the delay it drew to the time gone by, and
/// that sum must fit a `Duration`. It does: the time gone by is at most
/// `max_elapsed_time`, the current interval at most the longer of the
/// initial and the longest interval, and the delay less than the current
/// interval times one plus the randomization factor, plus a nanosecond.
/// With every length at most `MAX_BACKOFF_SECS` and a factor of at most
/// `u32::MAX` thousandths, as `build_backoff` has them, the sum stays below
/// 2^55 seconds.
#[verifier::external_body]
fn next_backoff(backoff: &mut Backoff) -> (r: Option<Delay>)
    ensures
        backoff_parameters(final(backoff).inner) == backoff_parameters(old(backoff).inner),
        r matches Some(d) ==> {
            &&& d.wf()
            &&& d.total_nanos() <= backoff_parameters(
                old(backoff).inner,
            ).max_elapsed_time.total_nanos()
            &&& spec_in_jitter_range(
                d.total_nanos() as int,
                backoff_current_interval(old(backoff).inner).total_nanos() as int,
                backoff_parameters(old(backoff).inner).randomization_permille as int,
            )
            &&& spec_grown(
                backoff_current_interval(final(backoff).inner).total_nanos() as int,
                backoff_current_interval(old(backoff).inner).total_nanos() as int,
                backoff_parameters(old(backoff).inner).multiplier_permille as int,
                backoff_parameters(old(backoff).inner).max_interval.total_nanos() as int,
            )
        },
        r.is_none() ==> backoff_current_interval(final(backoff).inner) == backoff_current_interval(
            old(backoff).inner,
        ) || spec_grown(
            backoff_current_interval(final(backoff).inner).total_nanos() as int,
            backoff_current_interval(old(backoff).inner).total_nanos() as int,
            backoff_parameters(old(backoff).inner).multiplier_permille as int,
            backoff_parameters(old(backoff).inner).max_interval.total_nanos() as int,
        ),
{
    backoff::backoff::Backoff::next_backoff(&mut backoff.inner).map(
        |d| Delay { secs: d.as_secs(), nanos: d.subsec_nanos() },
    )
}

impl Backoff {
    /// What this backoff was made with.
    pub closed spec fn parameters(&self) -> BackoffParameters {
        backoff_parameters(self.inner)
    }

    /// The interval that the next delay is drawn around.
    pub closed spec fn current_interval(&self) -> Delay {
        backoff_current_interval(self.inner)
    }

    /// Whether `delay` can be the next delay of this backoff: it lies
    /// within the time given and in the range around the current interval.
    pub open spec fn spec_can_give(&self, delay: Delay) -> bool {
        &&& delay.wf()
        &&& delay.total_nanos() <= self.budget().total_nanos()
        &&& spec_in_jitter_range(
            delay.total_nanos() as int,
            self.current_interval().total_nanos() as int,
            self.parameters().randomization_permille as int,
        )
    }

    /// Whether `next` can be this backoff after it has moved on by one
    /// interval.
    pub open spec fn spec_moves_on_to(&self, next: Backoff) -> bool {
        &&& next.parameters() == self.parameters()
        &&& spec_grown(
            next.current_interval().total_nanos() as int,
            self.current_interval().total_nanos() as int,
            self.parameters().multiplier_permille as int,
            self.parameters().max_interval.total_nanos() as int,
        )
    }

    /// The time that this backoff was given when it was made. No delay
    /// that it hands out is longer.
    pub open spec fn budget(&self) -> Delay {
        self.parameters().max_elapsed_time
    }

    /// A backoff with these parameters, its clock started now. The two
    /// factors are given in thousandths. `None` where a length of time is
    /// out of range: its nanoseconds reach a second, or its seconds exceed
    /// `MAX_BACKOFF_SECS`.
    pub fn new(
        initial_interval: Delay,
        max_interval: Delay,
        max_elapsed_time: Delay,
        randomization_permille: u32,
        multiplier_permille: u32,
    ) -> (r: Option<Backoff>)
        ensures
            r.is_some() <==> spec_in_range(initial_interval) && spec_in_range(max_interval)
                && spec_in_range(max_elapsed_time),
            r matches Some(b) ==> b.parameters() == (BackoffParameters {
                initial_interval,
                max_interval,
                max_elapsed_time,
                randomization_permille,
                multiplier_permille,
            }),
            r matches Some(b) ==> b.current_interval() == initial_interval,
    {
        if in_range(initial_interval) && in_range(max_interval) && in_range(max_elapsed_time) {
            Some(
                build_backoff(
                    initial_interval,
                    max_interval,
                    max_elapsed_time,
                    randomization_permille,
                    multiplier_permille,
                ),
            )
        } else {
            None
        }
    }

    /// The delay before the next attempt, or `None` where the backoff has no
    /// time left to give. Whether a delay is given depends on the clock.
    /// A delay that is given lies within the time the backoff was given and
    /// in the range around the current interval, and the backoff has then
    /// moved on by one interval. Where none is given, the backoff has
    /// moved on by one interval or stayed where it was. What the backoff
    /// was made with stays as it is.
    pub fn next(&mut self) -> (r: Option<Delay>)
        ensures
            final(self).parameters() == old(self).parameters(),
            r matches Some(d) ==> old(self).spec_can_give(d) && old(self).spec_moves_on_to(
                *final(self),
            ),
            r.is_none() ==> final(self).current_interval() == old(self).current_interval() || old(
                self,
            ).spec_moves_on_to(*final(self)),
    {
        next_backoff(self)
    }
}

/// Whether a backoff can be built from this length of time.
pub fn in_range(d: Delay) -> (r: bool)
    ensures
        r == spec_in_range(d),
{
    d.nanos < NANOS_PER_SEC && d.secs <= MAX_BACKOFF_SECS
}

} // verus!
