//! The clock scheduler: converts a configured frequency into a
//! per-cycle nanosecond budget and decides, poll by poll, whether a
//! tick has elapsed and whether that tick dispatches an instruction or
//! is consumed by the suppression window of a multi-cycle instruction.
//!
//! The scheduler itself never reads the wall clock; the host samples
//! the time source, feeds every reading into [`ClockState::poll`], runs
//! the instruction-dispatch handler when told to, and reports the cycle
//! cost back through [`ClockState::record_dispatch`]. The decisions are
//! thereby exact for every possible reading, while the readings stay
//! with the host.

use vstd::prelude::*;

verus! {

/// The per-cycle time budget for a clock of `hz` cycles per second:
/// one billion nanoseconds divided by `hz`, rounded to the nearest
/// whole nanosecond (halves round up).
pub open spec fn cycle_budget_nanos(hz: u64) -> u128 {
    ((2_000_000_000 + hz as int) / (2 * hz as int)) as u128
}

/// The per-cycle budget is the exact period — one billion nanoseconds
/// divided by the frequency — rounded to the nearest whole nanosecond:
/// the budget times the frequency misses one billion by at most half a
/// frequency's worth, never by more.
pub proof fn lemma_cycle_budget_nearest(hz: u64)
    requires
        1 <= hz,
    ensures
        -(hz as int) <= 2_000_000_000 - 2 * (hz as int) * (cycle_budget_nanos(hz) as int)
            < hz as int,
{
    let n: int = 2_000_000_000 + hz as int;
    let d: int = 2 * hz as int;
    vstd::arithmetic::div_mod::lemma_div_pos_is_pos(n, d);
    vstd::arithmetic::div_mod::lemma_div_nonincreasing(n, d);
    vstd::arithmetic::div_mod::lemma_fundamental_div_mod(n, d);
    vstd::arithmetic::div_mod::lemma_mod_division_less_than_divisor(n, d);
    assert(cycle_budget_nanos(hz) as int == n / d);
}

/// What one scheduler poll decided.
#[derive(Clone, Copy, Debug, PartialEq, Eq, Structural)]
pub enum ClockAction {
    /// The per-cycle budget has not elapsed yet: keep waiting.
    Idle,
    /// A tick elapsed but a previous multi-cycle instruction still
    /// occupies it: the tick is consumed without dispatching.
    SkipCycle,
    /// A tick elapsed and the next instruction is due: the host must
    /// dispatch once and report the cycle cost back.
    Dispatch,
}

/// The scheduler's mutable state between polls: the wall-clock reading
/// at the last tick boundary, the count of pending skip cycles of an
/// in-progress multi-cycle instruction, and how many ticks have
/// elapsed in all.
#[derive(Clone, Copy, Debug, PartialEq, Eq, Structural)]
pub struct ClockState {
    /// Wall-clock nanoseconds at the last tick boundary.
    pub start_nanos: u128,
    /// Ticks still to consume before the next dispatch.
    pub skip_cycles: u32,
    /// Total ticks that have elapsed so far.
    pub ticks: u64,
}

/// What one poll at reading `now` decides in state `s`: nothing while
/// the elapsed time since the last tick boundary is within the budget;
/// once it exceeds the budget, a consumed tick if a suppression window
/// is pending and a dispatching tick otherwise.
pub open spec fn spec_poll_action(s: ClockState, now: u128, budget: u128) -> ClockAction {
    if now - s.start_nanos <= budget {
        ClockAction::Idle
    } else if s.skip_cycles > 0 {
        ClockAction::SkipCycle
    } else {
        ClockAction::Dispatch
    }
}

/// The state after one poll at reading `now`: unchanged while waiting;
/// on a tick the boundary resets to `now`, the tick counts, and a
/// pending suppression window shrinks by the consumed tick.
pub open spec fn spec_poll_state(s: ClockState, now: u128, budget: u128) -> ClockState {
    if now - s.start_nanos <= budget {
        s
    } else {
        ClockState {
            start_nanos: now,
            skip_cycles: if s.skip_cycles > 0 {
                (s.skip_cycles - 1) as u32
            } else {
                0
            },
            ticks: (s.ticks + 1) as u64,
        }
    }
}

/// The state after polling a whole sequence of readings in order.
pub open spec fn spec_run_polls(s: ClockState, readings: Seq<u128>, budget: u128) -> ClockState
    decreases readings.len(),
{
    if readings.len() == 0 {
        s
    } else {
        spec_run_polls(spec_poll_state(s, readings[0], budget), readings.drop_first(), budget)
    }
}

/// Ticks never outpace the wall clock: whatever readings a host feeds
/// in, every tick moves the tick boundary by more than the per-cycle
/// budget, so the ticks gained over a stretch of polls are at most the
/// boundary's advance divided by one more than the budget.
pub proof fn lemma_ticks_bounded(s: ClockState, readings: Seq<u128>, budget: u128)
    requires
        s.ticks + readings.len() <= u64::MAX,
    ensures
        ({
            let run = spec_run_polls(s, readings, budget);
            &&& s.ticks <= run.ticks <= s.ticks + readings.len()
            &&& s.start_nanos <= run.start_nanos
            &&& (run.ticks - s.ticks) * (budget as int + 1) <= run.start_nanos - s.start_nanos
        }),
    decreases readings.len(),
{
    if readings.len() > 0 {
        let now: u128 = readings[0];
        let b: int = budget as int + 1;
        let stepped = spec_poll_state(s, now, budget);
        lemma_ticks_bounded(stepped, readings.drop_first(), budget);
        let run = spec_run_polls(s, readings, budget);
        assert(run == spec_run_polls(stepped, readings.drop_first(), budget));
        if now - s.start_nanos <= budget {
            assert(stepped == s);
        } else {
            assert(stepped.ticks == s.ticks + 1);
            assert(stepped.start_nanos - s.start_nanos >= b);
            assert((stepped.ticks - s.ticks) * b == b) by (nonlinear_arith)
                requires
                    stepped.ticks - s.ticks == 1,
            ;
        }
        let dt1: int = stepped.ticks - s.ticks;
        let dt2: int = run.ticks - stepped.ticks;
        assert((dt1 + dt2) * b == dt1 * b + dt2 * b) by (nonlinear_arith);
    }
}

impl ClockState {
    /// A scheduler that starts waiting at the given wall-clock reading,
    /// with no suppression window pending.
    pub fn new(start_nanos: u128) -> (r: ClockState)
        ensures
            r.start_nanos == start_nanos,
            r.skip_cycles == 0,
            r.ticks == 0,
    {
        ClockState { start_nanos, skip_cycles: 0, ticks: 0 }
    }

    /// One scheduler poll at wall-clock reading `now`, against the
    /// per-cycle budget.
    ///
    /// While the elapsed time since the last tick boundary is within
    /// the budget nothing happens. Once it exceeds the budget a tick
    /// has occurred and the boundary resets to `now`: the tick is
    /// consumed by the suppression window if one is pending, and
    /// otherwise dispatches.
    pub fn poll(&mut self, now: u128, budget: u128) -> (r: ClockAction)
        requires
            old(self).start_nanos <= now,
            old(self).ticks < u64::MAX,
        ensures
            r == spec_poll_action(*old(self), now, budget),
            *final(self) == spec_poll_state(*old(self), now, budget),
    {
        if now - self.start_nanos <= budget {
            return ClockAction::Idle;
        }

        self.ticks = self.ticks + 1;
        self.start_nanos = now;

        if self.skip_cycles > 0 {
            self.skip_cycles = self.skip_cycles - 1;
            ClockAction::SkipCycle
        } else {
            ClockAction::Dispatch
        }
    }

    /// Record the cycle cost an instruction-dispatch handler reported
    /// for the instruction just dispatched: the tick that dispatched it
    /// already counts as cycle one, so the following `cycles - 1` ticks
    /// are consumed without dispatching.
    pub fn record_dispatch(&mut self, cycles: u32)
        requires
            cycles >= 1,
        ensures
            final(self).skip_cycles == (cycles - 1) as u32,
            final(self).start_nanos == old(self).start_nanos,
            final(self).ticks == old(self).ticks,
    {
        self.skip_cycles = cycles - 1;
    }
}

} // verus!
