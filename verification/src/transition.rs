//! A timed linear animation of one scalar value.

use vstd::prelude::*;
use crate::fixed::{
    blend, lemma_blend_between, lemma_blend_endpoints, lemma_blend_monotonic, lerp, UNIT,
};

verus! {

/// A single animation from one value to another over a stretch of time.
///
/// Times and values are millionths: a `duration` of `UNIT` is one second.
#[derive(Clone, Copy, Debug, PartialEq, Eq, Structural)]
pub struct MandalaTransition {
    /// When the animation starts.
    pub start_time: i64,
    /// How long it runs; an animation that is not longer than zero is over as
    /// soon as its start time has passed.
    pub duration: i64,
    /// The value animated from.
    pub start_value: i64,
    /// The value animated to.
    pub end_value: i64,
}

impl MandalaTransition {
    /// The elapsed share of the animation at time `now`, in millionths: zero
    /// up to the start time, `UNIT` from the end time on, and in between the
    /// elapsed time over the duration, rounded down.
    pub open spec fn percent_at(self, now: int) -> int {
        if now <= self.start_time {
            0
        } else if self.duration <= 0 || now - self.start_time >= self.duration {
            UNIT as int
        } else {
            (now - self.start_time) * (UNIT as int) / (self.duration as int)
        }
    }

    /// The animated value at time `now`.
    pub open spec fn value_at(self, now: int) -> int {
        blend(self.start_value as int, self.end_value as int, self.percent_at(now))
    }

    /// Whether the animation has reached its end and stays frozen there.
    pub open spec fn settled_at(self, now: int) -> bool {
        self.percent_at(now) == UNIT
    }

    /// The animation that stands for a value at rest: it runs for a tenth of
    /// a second from time zero, and both of its ends are `value`.
    pub open spec fn resting(value: i64) -> MandalaTransition {
        MandalaTransition { start_time: 0, duration: 100_000, start_value: value, end_value: value }
    }

    /// An animation that starts at `start_time`, lasts `duration` and sweeps
    /// from `start_value` to `end_value`.
    pub fn new(start_time: i64, duration: i64, start_value: i64, end_value: i64) -> (clock: Self)
        ensures
            clock == (MandalaTransition { start_time, duration, start_value, end_value }),
    {
        MandalaTransition { start_time, duration, start_value, end_value }
    }

    /// A value that does not move: both ends of the animation are `value`,
    /// and it runs for a tenth of a second from time zero.
    pub fn fixed_value(value: i64) -> (clock: Self)
        ensures
            clock == Self::resting(value),
            forall|now: int| #[trigger] clock.value_at(now) == value,
    {
        let clock = MandalaTransition {
            start_time: 0,
            duration: 100_000,
            start_value: value,
            end_value: value,
        };
        assert forall|now: int| #[trigger] clock.value_at(now) == value by {
            lemma_percent_bounded(clock, now);
            lemma_blend_between(value as int, value as int, clock.percent_at(now));
        }
        clock
    }

    /// The elapsed share of the animation at time `now`, in millionths.
    pub fn percent_elapsed(&self, now: i64) -> (percent: i64)
        ensures
            percent == self.percent_at(now as int),
            0 <= percent <= UNIT,
    {
        if now <= self.start_time {
            return 0;
        }
        let elapsed: i128 = now as i128 - self.start_time as i128;
        if self.duration <= 0 || elapsed >= self.duration as i128 {
            return UNIT;
        }
        let span: i128 = self.duration as i128;
        assert(0 <= elapsed * 1_000_000 < span * 1_000_000 && (elapsed * 1_000_000) / (span as int)
            < 1_000_000) by (nonlinear_arith)
            requires
                0 < elapsed < span,
        ;
        let share: i128 = (elapsed * 1_000_000) / span;
        share as i64
    }

    /// The animated value at time `now`.
    pub fn value(&self, now: i64) -> (value: i64)
        ensures
            value == self.value_at(now as int),
    {
        let percent = self.percent_elapsed(now);
        proof {
            lemma_blend_between(self.start_value as int, self.end_value as int, percent as int);
        }
        lerp(self.start_value, self.end_value, percent)
    }

    /// Whether the animation has reached its end at time `now`.
    pub fn is_settled(&self, now: i64) -> (settled: bool)
        ensures
            settled == self.settled_at(now as int),
    {
        self.percent_elapsed(now) == UNIT
    }
}

/// The elapsed share never leaves the span from zero to `UNIT`.
pub proof fn lemma_percent_bounded(clock: MandalaTransition, now: int)
    ensures
        0 <= clock.percent_at(now) <= UNIT,
{
    if now > clock.start_time && clock.duration > 0 && now - clock.start_time < clock.duration {
        let elapsed = now - clock.start_time;
        let span = clock.duration as int;
        assert(0 <= elapsed * (UNIT as int) / span < UNIT) by (nonlinear_arith)
            requires
                0 < elapsed < span,
                UNIT == 1_000_000,
        ;
    }
}

/// The elapsed share never decreases as time goes on.
pub proof fn lemma_percent_monotonic(clock: MandalaTransition, earlier: int, later: int)
    requires
        earlier <= later,
    ensures
        clock.percent_at(earlier) <= clock.percent_at(later),
{
    lemma_percent_bounded(clock, earlier);
    lemma_percent_bounded(clock, later);
    if earlier > clock.start_time && clock.duration > 0 && later - clock.start_time
        < clock.duration {
        let first = earlier - clock.start_time;
        let second = later - clock.start_time;
        let span = clock.duration as int;
        assert(first * (UNIT as int) / span <= second * (UNIT as int) / span) by (nonlinear_arith)
            requires
                0 < first <= second,
                span > 0,
                UNIT == 1_000_000,
        ;
    }
}

/// An animation of positive duration has covered its whole stretch at its
/// end time and at every later time.
pub proof fn lemma_percent_complete(clock: MandalaTransition, now: int)
    requires
        clock.duration > 0,
        now >= clock.start_time + clock.duration,
    ensures
        clock.percent_at(now) == UNIT,
{
}

/// An animation whose duration is not positive has covered nothing up to its
/// start time and everything after it.
pub proof fn lemma_percent_without_duration(clock: MandalaTransition, now: int)
    requires
        clock.duration <= 0,
    ensures
        now <= clock.start_time ==> clock.percent_at(now) == 0,
        now > clock.start_time ==> clock.percent_at(now) == UNIT,
{
}

/// At its start time, and before it, an animation shows its start value.
pub proof fn lemma_value_at_start(clock: MandalaTransition, now: int)
    requires
        now <= clock.start_time,
    ensures
        clock.percent_at(now) == 0,
        clock.value_at(now) == clock.start_value,
{
    lemma_blend_endpoints(clock.start_value as int, clock.end_value as int);
}

/// From its end time on, an animation of positive duration shows its end
/// value.
pub proof fn lemma_value_at_end(clock: MandalaTransition, now: int)
    requires
        clock.duration > 0,
        now >= clock.start_time + clock.duration,
    ensures
        clock.value_at(now) == clock.end_value,
{
    lemma_blend_endpoints(clock.start_value as int, clock.end_value as int);
}

/// The animated value always lies between the start value and the end value.
pub proof fn lemma_value_between(clock: MandalaTransition, now: int)
    ensures
        clock.start_value <= clock.end_value ==> clock.start_value <= clock.value_at(now)
            <= clock.end_value,
        clock.end_value <= clock.start_value ==> clock.end_value <= clock.value_at(now)
            <= clock.start_value,
{
    lemma_percent_bounded(clock, now);
    lemma_blend_between(clock.start_value as int, clock.end_value as int, clock.percent_at(now));
}

/// The animated value moves towards the end value as time goes on, never
/// away from it.
pub proof fn lemma_value_monotonic(clock: MandalaTransition, earlier: int, later: int)
    requires
        earlier <= later,
    ensures
        clock.start_value <= clock.end_value ==> clock.value_at(earlier) <= clock.value_at(later),
        clock.end_value <= clock.start_value ==> clock.value_at(earlier) >= clock.value_at(later),
{
    lemma_percent_monotonic(clock, earlier, later);
    lemma_blend_monotonic(
        clock.start_value as int,
        clock.end_value as int,
        clock.percent_at(earlier),
        clock.percent_at(later),
    );
}

} // verus!
