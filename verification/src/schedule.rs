//! The anchored tick schedule behind the interval tickers.
//!
//! Times are nanoseconds on a monotonic clock, counted from an origin chosen by
//! the caller (for the thread-sleeping ticker: the instant it was created). The
//! schedule remembers when the next tick is due; a tick waits until that time
//! and then moves the due time on by exactly one period, so the time spent
//! between ticks never drifts the schedule.
//!
//! The schedule refuses only what would not fit in a `Duration` counted from
//! its origin; whether a due time also lies within the range of the caller's
//! clock is for the caller, who holds the clock, to check.

use vstd::prelude::*;

verus! {

/// The largest number of nanoseconds a `std::time::Duration` can hold:
/// `u64::MAX` seconds plus 999 999 999 nanoseconds.
pub const MAX_NANOS: u128 = 18_446_744_073_709_551_615_999_999_999u128;

/// Nanoseconds in one second.
pub const NANOS_PER_SEC: u128 = 1_000_000_000u128;

/// Nanoseconds in one millisecond.
pub const NANOS_PER_MILLI: u128 = 1_000_000u128;

/// The mathematical state of a schedule: its period and the time at which the
/// next tick is due.
pub struct ScheduleState {
    pub period: nat,
    pub next: nat,
}

impl ScheduleState {
    /// A schedule whose first tick is due right at `now`.
    pub open spec fn started(period: nat, now: nat) -> ScheduleState {
        ScheduleState { period, next: now }
    }

    /// How long a tick that starts at `now` sleeps: until the due time, or not
    /// at all when the due time has already passed.
    pub open spec fn wait_at(self, now: nat) -> nat {
        if now <= self.next {
            (self.next - now) as nat
        } else {
            0
        }
    }

    /// The time at which a tick that starts at `now` returns.
    pub open spec fn fires_at(self, now: nat) -> nat {
        now + self.wait_at(now)
    }

    /// The schedule after one tick: the due time moves on by one period.
    pub open spec fn ticked(self) -> ScheduleState {
        ScheduleState { period: self.period, next: self.next + self.period }
    }

    /// The schedule after `n` ticks.
    pub open spec fn ticked_n(self, n: nat) -> ScheduleState
        decreases n,
    {
        if n == 0 {
            self
        } else {
            self.ticked_n((n - 1) as nat).ticked()
        }
    }

    /// The schedule after a reset at `now`: the next tick is one full period
    /// away.
    pub open spec fn reset_at(self, now: nat) -> ScheduleState {
        ScheduleState { period: self.period, next: now + self.period }
    }

    /// The schedule after a restart at `now` with a new period: the next tick
    /// is one full new period away.
    pub open spec fn restarted(self, period: nat, now: nat) -> ScheduleState {
        ScheduleState { period, next: now + period }
    }
}

/// An anchored schedule of ticks, kept in nanoseconds.
pub struct IntervalSchedule {
    period: u128,
    next: u128,
}

impl View for IntervalSchedule {
    type V = ScheduleState;

    closed spec fn view(&self) -> ScheduleState {
        ScheduleState { period: self.period as nat, next: self.next as nat }
    }
}

impl IntervalSchedule {
    /// Every period and due time fits in a `Duration`.
    #[verifier::type_invariant]
    spec fn fits_duration(self) -> bool {
        &&& self.period <= MAX_NANOS
        &&& self.next <= MAX_NANOS
    }

    /// A schedule with the given period whose first tick is due at `now`, so
    /// that it fires immediately.
    pub fn new(period: u128, now: u128) -> (s: IntervalSchedule)
        requires
            period <= MAX_NANOS,
            now <= MAX_NANOS,
        ensures
            s@ == ScheduleState::started(period as nat, now as nat),
    {
        IntervalSchedule { period, next: now }
    }

    /// The period, in nanoseconds.
    pub fn period(&self) -> (p: u128)
        ensures
            p == self@.period,
            p <= MAX_NANOS,
    {
        proof {
            use_type_invariant(self);
        }
        self.period
    }

    /// The time the next tick is due.
    pub fn next_due(&self) -> (t: u128)
        ensures
            t == self@.next,
            t <= MAX_NANOS,
    {
        proof {
            use_type_invariant(self);
        }
        self.next
    }

    /// How long a tick that starts at `now` must sleep: `Some` of the time left
    /// until the due time (zero when it is due right now), `None` when the due
    /// time has already passed.
    pub fn due_in(&self, now: u128) -> (wait: Option<u128>)
        ensures
            match wait {
                Some(d) => now <= self@.next && d == self@.next - now,
                None => now > self@.next,
            },
            wait matches Some(d) ==> d <= MAX_NANOS,
    {
        proof {
            use_type_invariant(self);
        }
        if now <= self.next {
            Some(self.next - now)
        } else {
            None
        }
    }

    /// Move the due time on by one period, as a tick does once it has waited.
    /// Returns `false`, and leaves the schedule unchanged, when the new due
    /// time would not fit in a `Duration`.
    pub fn checked_advance(&mut self) -> (ok: bool)
        ensures
            ok == (old(self)@.next + old(self)@.period <= MAX_NANOS),
            ok ==> final(self)@ == old(self)@.ticked(),
            !ok ==> final(self)@ == old(self)@,
    {
        proof {
            use_type_invariant(&*self);
        }
        if self.period <= MAX_NANOS - self.next {
            self.next = self.next + self.period;
            true
        } else {
            false
        }
    }

    /// Schedule the next tick one full period after `now`. Returns `false`,
    /// and leaves the schedule unchanged, when that time would not fit in a
    /// `Duration`.
    pub fn checked_reset(&mut self, now: u128) -> (ok: bool)
        ensures
            ok == (now + old(self)@.period <= MAX_NANOS),
            ok ==> final(self)@ == old(self)@.reset_at(now as nat),
            !ok ==> final(self)@ == old(self)@,
    {
        proof {
            use_type_invariant(&*self);
        }
        if now <= MAX_NANOS && self.period <= MAX_NANOS - now {
            self.next = now + self.period;
            true
        } else {
            false
        }
    }

    /// Switch to a new period and schedule the next tick one full new period
    /// after `now`. Returns `false`, and leaves the schedule unchanged, when
    /// that time would not fit in a `Duration`.
    pub fn checked_restart(&mut self, period: u128, now: u128) -> (ok: bool)
        ensures
            ok == (now + period <= MAX_NANOS),
            ok ==> final(self)@ == old(self)@.restarted(period as nat, now as nat),
            !ok ==> final(self)@ == old(self)@,
    {
        if now <= MAX_NANOS && period <= MAX_NANOS - now {
            *self = IntervalSchedule { period, next: now + period };
            true
        } else {
            false
        }
    }
}

/// A tick never returns early, and never later than it must: a tick that
/// starts at `now` returns exactly at the later of `now` and the due time.
pub proof fn lemma_tick_returns_at_due_time(s: ScheduleState, now: nat)
    ensures
        s.fires_at(now) == if now <= s.next { s.next } else { now },
        s.fires_at(now) >= s.next,
{
}

/// The first tick of a freshly started schedule fires immediately: started at
/// `start`, a first tick at any later `now` does not sleep at all.
pub proof fn lemma_first_tick_is_immediate(period: nat, start: nat, now: nat)
    requires
        start <= now,
    ensures
        ScheduleState::started(period, start).wait_at(now) == 0,
        ScheduleState::started(period, start).fires_at(now) == now,
{
}

/// The second tick of a freshly started schedule returns no earlier than one
/// full period after the start, however soon after the first it is called.
pub proof fn lemma_second_tick_waits_one_period(period: nat, start: nat, first: nat, second: nat)
    requires
        start <= first,
        ScheduleState::started(period, start).fires_at(first) <= second,
    ensures
        ScheduleState::started(period, start).ticked().fires_at(second) >= start + period,
{
}

/// Ticks stay anchored to the schedule: after `n` ticks the next one is due
/// exactly `n` periods after the first due time, whenever the ticks were
/// called, and the period stays the same.
pub proof fn lemma_ticks_stay_anchored(s: ScheduleState, n: nat)
    ensures
        s.ticked_n(n).next == s.next + n * s.period,
        s.ticked_n(n).period == s.period,
    decreases n,
{
    if n > 0 {
        lemma_ticks_stay_anchored(s, (n - 1) as nat);
        assert((n - 1) * s.period + s.period == n * s.period) by (nonlinear_arith)
            requires
                n > 0,
        ;
    } else {
        assert(n * s.period == 0) by (nonlinear_arith)
            requires
                n == 0,
        ;
    }
}

/// Processing time between ticks does not drift the period: whenever it is
/// started, the tick that follows `n` earlier ticks returns no earlier than
/// `n` periods after the first due time.
pub proof fn lemma_later_ticks_do_not_drift(s: ScheduleState, n: nat, now: nat)
    ensures
        s.ticked_n(n).fires_at(now) >= s.next + n * s.period,
{
    lemma_ticks_stay_anchored(s, n);
}

/// After a reset at `at`, the next tick returns no earlier than one full
/// period later; a tick started right at `at` sleeps the whole period.
pub proof fn lemma_reset_waits_full_period(s: ScheduleState, at: nat, now: nat)
    requires
        at <= now,
    ensures
        s.reset_at(at).fires_at(now) >= at + s.period,
        s.reset_at(at).wait_at(at) == s.period,
        s.reset_at(at).period == s.period,
{
}

/// After a restart at `at` with a new period, the next tick returns no earlier
/// than one full new period later; a tick started right at `at` sleeps the
/// whole new period, so a restart never produces an immediate tick when the
/// period is not zero.
pub proof fn lemma_restart_waits_full_period(s: ScheduleState, period: nat, at: nat, now: nat)
    requires
        at <= now,
    ensures
        s.restarted(period, at).fires_at(now) >= at + period,
        s.restarted(period, at).wait_at(at) == period,
        s.restarted(period, at).period == period,
{
}

/// Each tick of a freshly started schedule is due at its own slot: the `k`-th
/// tick (counting from zero) sleeps exactly the time left until `start + k`
/// periods, or not at all when that time has passed, and returns no earlier
/// than that slot. A late tick does not move the slots of later ones.
pub proof fn lemma_kth_tick_waits_for_its_slot(period: nat, start: nat, k: nat, entered: nat)
    ensures
        ScheduleState::started(period, start).ticked_n(k).next == start + k * period,
        ScheduleState::started(period, start).ticked_n(k).wait_at(entered) == if entered <= start
            + k * period {
            (start + k * period - entered) as nat
        } else {
            0nat
        },
        ScheduleState::started(period, start).ticked_n(k).fires_at(entered) >= start + k * period,
{
    lemma_ticks_stay_anchored(ScheduleState::started(period, start), k);
}

/// After a reset at `at`, the period is kept and the `k`-th tick that follows
/// (counting from zero) is due `k + 1` periods after the reset, whatever the
/// schedule was before.
pub proof fn lemma_ticks_after_reset(s: ScheduleState, at: nat, k: nat)
    ensures
        s.reset_at(at).ticked_n(k).period == s.period,
        s.reset_at(at).ticked_n(k).next == at + (k + 1) * s.period,
{
    lemma_ticks_stay_anchored(s.reset_at(at), k);
    assert(s.period + k * s.period == (k + 1) * s.period) by (nonlinear_arith);
}

/// After a restart at `at` with a new period, the `k`-th tick that follows
/// (counting from zero) is due `k + 1` new periods after the restart,
/// whatever the schedule was before.
pub proof fn lemma_ticks_after_restart(s: ScheduleState, period: nat, at: nat, k: nat)
    ensures
        s.restarted(period, at).ticked_n(k).period == period,
        s.restarted(period, at).ticked_n(k).next == at + (k + 1) * period,
{
    lemma_ticks_stay_anchored(s.restarted(period, at), k);
    assert(period + k * period == (k + 1) * period) by (nonlinear_arith);
}

/// A restart with the period the schedule already has is a reset.
pub proof fn lemma_restart_with_same_period_is_reset(s: ScheduleState, at: nat)
    ensures
        s.restarted(s.period, at) == s.reset_at(at),
{
}

/// Split a number of nanoseconds into whole seconds and the nanoseconds left
/// over, the two parts a `Duration` is built from.
pub fn split_nanos(nanos: u128) -> (parts: (u64, u32))
    requires
        nanos <= MAX_NANOS,
    ensures
        parts.0 * NANOS_PER_SEC + parts.1 == nanos,
        parts.1 < NANOS_PER_SEC,
{
    let secs = nanos / NANOS_PER_SEC;
    let subsec = nanos % NANOS_PER_SEC;
    assert(secs <= u64::MAX) by (nonlinear_arith)
        requires
            secs == nanos / NANOS_PER_SEC,
            nanos <= MAX_NANOS,
            NANOS_PER_SEC == 1_000_000_000,
            MAX_NANOS == 18_446_744_073_709_551_615_999_999_999u128,
    ;
    assert(secs * NANOS_PER_SEC + subsec == nanos) by (nonlinear_arith)
        requires
            secs == nanos / NANOS_PER_SEC,
            subsec == nanos % NANOS_PER_SEC,
            NANOS_PER_SEC == 1_000_000_000,
    ;
    (secs as u64, subsec as u32)
}

/// Convert whole milliseconds to nanoseconds, as `Duration::from_millis`
/// followed by `as_nanos` does.
pub fn millis_to_nanos(millis: u64) -> (nanos: u128)
    ensures
        nanos == millis * NANOS_PER_MILLI,
        nanos <= MAX_NANOS,
{
    assert(millis * NANOS_PER_MILLI <= MAX_NANOS) by (nonlinear_arith)
        requires
            millis <= u64::MAX,
            NANOS_PER_MILLI == 1_000_000,
            MAX_NANOS == 18_446_744_073_709_551_615_999_999_999u128,
    ;
    (millis as u128) * NANOS_PER_MILLI
}

} // verus!
