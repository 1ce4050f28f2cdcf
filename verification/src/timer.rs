//! The repeating timer that paces one entity's playback.

use bevy_time::Timer;
use std::time::Duration;
use vstd::prelude::*;

verus! {

/// A repeating timer: time accumulates towards a fixed period, and what is left
/// over when the period is reached carries into the next round.
///
/// The timer always has a positive period and an elapsed time below it.
#[derive(Clone, Copy, Debug, PartialEq, Eq, Structural)]
pub struct FrameTimer {
    period_nanos: u64,
    elapsed_nanos: u64,
}

/// Ticks a repeating `bevy_time::Timer` once, by way of plain integers.
///
/// A timer of period `period_nanos` is built, set to `elapsed_nanos`, and
/// ticked by `delta_nanos` with `Timer::tick`; what comes back is its elapsed
/// time after the tick and what `Timer::just_finished` then says. As long as
/// the period does not fit more than `u32::MAX` times into the accumulated
/// time, `Timer::tick` takes every whole period off the accumulated time and
/// reports having finished exactly when there was at least one. A zero period
/// makes it divide by zero, so it is left out.
#[verifier::external_body]
fn tick_repeating(period_nanos: u64, elapsed_nanos: u64, delta_nanos: u64) -> (out: (u64, bool))
    requires
        period_nanos > 0,
        (elapsed_nanos + delta_nanos) / (period_nanos as int) <= u32::MAX,
    ensures
        out.0 == (elapsed_nanos + delta_nanos) % (period_nanos as int),
        out.1 == (elapsed_nanos + delta_nanos >= period_nanos),
{
    let mut timer = Timer::new(Duration::from_nanos(period_nanos), true);
    timer.set_elapsed(Duration::from_nanos(elapsed_nanos));
    timer.tick(Duration::from_nanos(delta_nanos));
    (timer.elapsed().as_nanos() as u64, timer.just_finished())
}

impl FrameTimer {
    #[verifier::type_invariant]
    spec fn inv(&self) -> bool {
        self.wf()
    }

    /// The period, in nanoseconds.
    pub closed spec fn spec_period_nanos(&self) -> u64 {
        self.period_nanos
    }

    /// The time accumulated towards the next firing, in nanoseconds.
    pub closed spec fn spec_elapsed_nanos(&self) -> u64 {
        self.elapsed_nanos
    }

    /// The timer with the given period and elapsed time.
    pub closed spec fn at(period_nanos: u64, elapsed_nanos: u64) -> FrameTimer {
        FrameTimer { period_nanos, elapsed_nanos }
    }

    /// A positive period, and less than one period elapsed.
    pub open spec fn wf(&self) -> bool {
        0 < self.spec_period_nanos() && self.spec_elapsed_nanos() < self.spec_period_nanos()
    }

    /// Whether ticking by `delta_nanos` reaches the period.
    pub open spec fn fires_after(&self, delta_nanos: u64) -> bool {
        self.spec_elapsed_nanos() + delta_nanos >= self.spec_period_nanos()
    }

    /// The timer after a tick of `delta_nanos`: the period stays, and the
    /// accumulated time is reduced modulo the period.
    pub open spec fn ticked(&self, delta_nanos: u64) -> FrameTimer {
        FrameTimer::at(
            self.spec_period_nanos(),
            ((self.spec_elapsed_nanos() + delta_nanos) % (self.spec_period_nanos() as int)) as u64,
        )
    }

    /// A timer is determined by its period and elapsed time, and `at` builds
    /// the timer that has them.
    pub proof fn lemma_at(period_nanos: u64, elapsed_nanos: u64)
        ensures
            FrameTimer::at(period_nanos, elapsed_nanos).spec_period_nanos() == period_nanos,
            FrameTimer::at(period_nanos, elapsed_nanos).spec_elapsed_nanos() == elapsed_nanos,
    {
    }

    /// A tick leaves the period as it is and the elapsed time below it.
    pub proof fn lemma_ticked_keeps_period(&self, delta_nanos: u64)
        requires
            self.wf(),
        ensures
            self.ticked(delta_nanos).wf(),
            self.ticked(delta_nanos).spec_period_nanos() == self.spec_period_nanos(),
            self.ticked(delta_nanos).spec_elapsed_nanos() == (self.spec_elapsed_nanos()
                + delta_nanos) % (self.spec_period_nanos() as int),
    {
        let period = self.period_nanos as int;
        let total = self.elapsed_nanos + delta_nanos;
        assert(0 <= total % period < period) by (nonlinear_arith)
            requires
                period > 0,
                total >= 0,
        ;
    }

    /// A tick of exactly one period fires and leaves the timer as it was.
    pub proof fn lemma_full_period(&self)
        requires
            self.wf(),
        ensures
            self.fires_after(self.spec_period_nanos()),
            self.ticked(self.spec_period_nanos()) == *self,
    {
        let period = self.period_nanos as int;
        let elapsed = self.elapsed_nanos as int;
        assert((elapsed + period) % period == elapsed) by {
            vstd::arithmetic::div_mod::lemma_fundamental_div_mod_converse(
                elapsed + period,
                period,
                1,
                elapsed,
            );
        }
    }

    /// A freshly started timer of the given period; `None` exactly for a zero
    /// period.
    pub fn repeating(period_nanos: u64) -> (timer: Option<FrameTimer>)
        ensures
            period_nanos == 0 ==> timer is None,
            period_nanos > 0 ==> timer == Some(FrameTimer::at(period_nanos, 0)),
            timer matches Some(t) ==> t.wf() && t.spec_period_nanos() == period_nanos
                && t.spec_elapsed_nanos() == 0,
    {
        FrameTimer::resumed(period_nanos, 0)
    }

    /// A timer of the given period with `elapsed_nanos` already accumulated;
    /// `None` exactly when the period is zero or the elapsed time does not lie
    /// below it.
    pub fn resumed(period_nanos: u64, elapsed_nanos: u64) -> (timer: Option<FrameTimer>)
        ensures
            elapsed_nanos >= period_nanos ==> timer is None,
            elapsed_nanos < period_nanos ==> timer == Some(
                FrameTimer::at(period_nanos, elapsed_nanos),
            ),
            timer matches Some(t) ==> t.wf() && t.spec_period_nanos() == period_nanos
                && t.spec_elapsed_nanos() == elapsed_nanos,
    {
        if elapsed_nanos < period_nanos {
            Some(FrameTimer { period_nanos, elapsed_nanos })
        } else {
            None
        }
    }

    /// The period, in nanoseconds.
    pub fn period_nanos(&self) -> (period: u64)
        ensures
            period == self.spec_period_nanos(),
            self.wf(),
    {
        proof {
            use_type_invariant(self);
        }
        self.period_nanos
    }

    /// The time accumulated towards the next firing, in nanoseconds.
    pub fn elapsed_nanos(&self) -> (elapsed: u64)
        ensures
            elapsed == self.spec_elapsed_nanos(),
            self.wf(),
    {
        proof {
            use_type_invariant(self);
        }
        self.elapsed_nanos
    }

    /// Accumulates `delta_nanos` and says whether the period was reached.
    ///
    /// However many periods fit into the accumulated time, the timer fires
    /// once, and the remainder below one period is kept.
    pub fn tick(&mut self, delta_nanos: u64) -> (fired: bool)
        ensures
            fired == old(self).fires_after(delta_nanos),
            *final(self) == old(self).ticked(delta_nanos),
            final(self).spec_period_nanos() == old(self).spec_period_nanos(),
            final(self).spec_elapsed_nanos() == (old(self).spec_elapsed_nanos() + delta_nanos) % (
            old(self).spec_period_nanos() as int),
            old(self).wf(),
            final(self).wf(),
    {
        proof {
            use_type_invariant(&*self);
        }
        let period: u128 = self.period_nanos as u128;
        let total: u128 = self.elapsed_nanos as u128 + delta_nanos as u128;
        assert(total % period < period) by (nonlinear_arith)
            requires
                period > 0,
        ;
        // `bevy_time` counts the periods that fit in a `u32`; where there are
        // more of them the remainder is taken here.
        if total / period <= u32::MAX as u128 {
            let (elapsed, fired) = tick_repeating(self.period_nanos, self.elapsed_nanos, delta_nanos);
            self.elapsed_nanos = elapsed;
            fired
        } else {
            assert(total >= period) by (nonlinear_arith)
                requires
                    period > 0,
                    total / period >= 1,
            ;
            self.elapsed_nanos = (total % period) as u64;
            true
        }
    }
}

} // verus!
