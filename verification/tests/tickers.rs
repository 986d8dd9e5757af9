//! Behavioural tests for the tick schedule, the random period source and the
//! mock events, driven by a simulated clock in nanoseconds.

use coolticker::mock::MockTickerEvent;
use coolticker::random::{floor_period_millis, mix_seed, truncate_millis, RandomPeriod};
use coolticker::schedule::{
    millis_to_nanos, split_nanos, IntervalSchedule, MAX_NANOS, NANOS_PER_MILLI,
};

fn ms(millis: u64) -> u128 {
    millis_to_nanos(millis)
}

/// Runs one tick of `schedule` that starts at `now`, as a ticker does: sleep
/// until the due time (if it is still ahead), then move the schedule on.
/// Returns the time at which the tick returns.
fn tick_at(schedule: &mut IntervalSchedule, now: u128) -> u128 {
    let returns = match schedule.due_in(now) {
        Some(wait) => now + wait,
        None => now,
    };
    assert!(schedule.checked_advance());
    returns
}

#[test]
fn tickers_first_tick_is_immediate() {
    let start: u128 = 0;
    let mut schedule = IntervalSchedule::new(ms(300), start);
    let returned = tick_at(&mut schedule, start);
    assert!(
        returned - start < ms(10),
        "first tick should fire immediately"
    );
}

#[test]
fn subsequent_tick_waits_one_period() {
    let start: u128 = 0;
    let mut schedule = IntervalSchedule::new(ms(150), start);
    let first = tick_at(&mut schedule, start); // immediate
    let second = tick_at(&mut schedule, first);
    assert!(
        second - start >= ms(150),
        "second tick should wait ~one period"
    );
}

#[test]
fn first_tick_is_immediate() {
    // A fixed period (min == max) keeps the timing assertions deterministic.
    let mut periods = RandomPeriod::new(300, 300).unwrap();
    let start: u128 = 0;
    let mut schedule = IntervalSchedule::new(ms(periods.sample_period()), start);
    let returned = tick_at(&mut schedule, start);
    assert!(
        returned - start < ms(100),
        "first tick should fire immediately"
    );
}

#[test]
fn tickers_randomize_restarts_without_instant_tick() {
    // A fixed period (min == max) keeps the timing assertions deterministic.
    let mut periods = RandomPeriod::new(150, 150).unwrap();
    let mut schedule = IntervalSchedule::new(ms(periods.sample_period()), 0);
    let now = tick_at(&mut schedule, 0); // immediate
    let period = periods.sample_period();
    assert!(schedule.checked_restart(ms(period), now));
    let start = now;
    let returned = tick_at(&mut schedule, start);
    assert!(
        returned - start >= ms(120),
        "randomize must restart the schedule, not tick instantly"
    );
}

#[test]
fn late_tick_does_not_sleep_and_keeps_the_schedule() {
    let mut schedule = IntervalSchedule::new(ms(100), 0);
    assert_eq!(schedule.due_in(0), Some(0));
    assert!(schedule.checked_advance());
    assert_eq!(schedule.next_due(), ms(100));
    // Started 250ms late: no sleep, and the next due time is still 200ms.
    assert_eq!(schedule.due_in(ms(350)), None);
    assert!(schedule.checked_advance());
    assert_eq!(schedule.next_due(), ms(200));
    assert_eq!(schedule.period(), ms(100));
}

#[test]
fn ticks_stay_anchored_after_many_ticks() {
    let mut schedule = IntervalSchedule::new(7, 1000);
    let mut now: u128 = 1000;
    for i in 0..10u128 {
        // Each tick is started a different, uneven time after the last one.
        now = tick_at(&mut schedule, now + (i * 3) % 11);
    }
    assert_eq!(schedule.next_due(), 1000 + 10 * 7);
}

#[test]
fn late_ticks_do_not_reanchor() {
    let p = ms(10);
    let mut schedule = IntervalSchedule::new(p, 0);
    assert_eq!(tick_at(&mut schedule, 0), 0);
    // The caller works until 3 periods in: the next three ticks are overdue.
    let late = 3 * p;
    assert_eq!(tick_at(&mut schedule, late), late);
    assert_eq!(tick_at(&mut schedule, late), late);
    assert_eq!(tick_at(&mut schedule, late), late);
    // The fourth is still due at 4 periods, not a period after the late calls.
    assert_eq!(schedule.due_in(late), Some(p));
    assert_eq!(tick_at(&mut schedule, late), 4 * p);
}

#[test]
fn ticks_after_reset_follow_the_reset() {
    let mut schedule = IntervalSchedule::new(ms(20), 0);
    tick_at(&mut schedule, 0);
    tick_at(&mut schedule, ms(500)); // overdue
    assert!(schedule.checked_reset(ms(500)));
    assert_eq!(tick_at(&mut schedule, ms(500)), ms(520));
    assert_eq!(tick_at(&mut schedule, ms(520)), ms(540));
    assert_eq!(schedule.period(), ms(20));
}

#[test]
fn randomize_on_one_value_range_acts_as_reset() {
    let mut periods = RandomPeriod::with_seed(25, 25, 3).unwrap();
    let mut a = IntervalSchedule::new(ms(25), 0);
    let mut b = IntervalSchedule::new(ms(25), 0);
    tick_at(&mut a, 0);
    tick_at(&mut b, 0);
    assert!(a.checked_restart(ms(periods.sample_period()), ms(7)));
    assert!(b.checked_reset(ms(7)));
    assert_eq!(a.period(), b.period());
    assert_eq!(a.next_due(), b.next_due());
}

#[test]
fn tick_returns_exactly_at_due_time() {
    let mut schedule = IntervalSchedule::new(ms(40), ms(5));
    assert_eq!(schedule.due_in(ms(2)), Some(ms(3)));
    assert_eq!(tick_at(&mut schedule, ms(2)), ms(5));
    assert_eq!(schedule.due_in(ms(5)), Some(ms(40)));
}

#[test]
fn reset_waits_a_full_period() {
    let mut schedule = IntervalSchedule::new(ms(100), 0);
    tick_at(&mut schedule, 0);
    assert!(schedule.checked_reset(ms(30)));
    assert_eq!(schedule.next_due(), ms(130));
    assert_eq!(schedule.due_in(ms(30)), Some(ms(100)));
    assert_eq!(schedule.period(), ms(100));
}

#[test]
fn restart_switches_the_period() {
    let mut schedule = IntervalSchedule::new(ms(100), 0);
    assert!(schedule.checked_restart(ms(25), ms(10)));
    assert_eq!(schedule.period(), ms(25));
    assert_eq!(schedule.next_due(), ms(35));
}

#[test]
fn schedule_refuses_to_overflow() {
    let mut schedule = IntervalSchedule::new(MAX_NANOS, MAX_NANOS);
    assert!(!schedule.checked_advance());
    assert_eq!(schedule.next_due(), MAX_NANOS);
    assert!(!schedule.checked_reset(1));
    assert_eq!(schedule.next_due(), MAX_NANOS);
    assert!(!schedule.checked_restart(2, MAX_NANOS - 1));
    assert_eq!(schedule.period(), MAX_NANOS);
    assert!(schedule.checked_restart(1, MAX_NANOS - 1));
    assert_eq!(schedule.next_due(), MAX_NANOS);
}

#[test]
fn split_nanos_gives_seconds_and_rest() {
    assert_eq!(split_nanos(0), (0, 0));
    assert_eq!(split_nanos(1_500_000_001), (1, 500_000_001));
    assert_eq!(split_nanos(MAX_NANOS), (u64::MAX, 999_999_999));
}

#[test]
fn millis_convert_to_nanos() {
    assert_eq!(millis_to_nanos(0), 0);
    assert_eq!(millis_to_nanos(150), 150_000_000);
    assert_eq!(NANOS_PER_MILLI, 1_000_000);
    assert_eq!(millis_to_nanos(u64::MAX), u64::MAX as u128 * 1_000_000);
}

#[test]
fn truncate_keeps_low_bits() {
    assert_eq!(truncate_millis(42), 42);
    assert_eq!(truncate_millis((1u128 << 64) + 5), 5);
}

#[test]
fn floor_is_at_least_one_milli() {
    assert_eq!(floor_period_millis(0), 1);
    assert_eq!(floor_period_millis(1), 1);
    assert_eq!(floor_period_millis(250), 250);
}

#[test]
fn mix_seed_folds_draws_and_clock() {
    assert_eq!(mix_seed(0, 0, 0), 0);
    assert_eq!(mix_seed(1, 2, 4), (1u64 << 32) | 6);
    assert_eq!(mix_seed(0xdead_beef, 0x1234, 0xffff), 0xdead_beef_0000_0000 ^ 0x1234 ^ 0xffff);
    assert_eq!(mix_seed(1 << 32, 0, 0), 0);
}

#[test]
fn empty_period_range_is_refused() {
    assert!(RandomPeriod::new(150, 149).is_none());
    assert!(RandomPeriod::with_seed(10, 5, 7).is_none());
    // Only the low 64 bits of each bound count.
    assert!(RandomPeriod::new((1u128 << 64) + 1, 0).is_none());
    let p = RandomPeriod::new(3, (1u128 << 64) + 9).unwrap();
    assert_eq!(p.min_period_millis(), 3);
    assert_eq!(p.max_period_millis(), 9);
}

#[test]
fn sampled_periods_stay_in_range_and_vary() {
    let mut p = RandomPeriod::with_seed(50, 150, 42).unwrap();
    let mut seen_other_than_bounds = false;
    for _ in 0..200 {
        let period = p.sample_period();
        assert!((50..=150).contains(&period));
        if period != 50 && period != 150 {
            seen_other_than_bounds = true;
        }
    }
    assert!(seen_other_than_bounds);
    assert_eq!(p.min_period_millis(), 50);
    assert_eq!(p.max_period_millis(), 150);
}

#[test]
fn zero_sample_is_floored_to_one_milli() {
    let mut p = RandomPeriod::with_seed(0, 0, 1).unwrap();
    for _ in 0..10 {
        assert_eq!(p.sample_period(), 1);
    }
    let mut q = RandomPeriod::new(0, 1).unwrap();
    for _ in 0..10 {
        assert_eq!(q.sample_period(), 1);
    }
}

#[test]
fn seeded_sources_repeat() {
    let mut a = RandomPeriod::with_seed(1, 1_000_000, 99).unwrap();
    let mut b = RandomPeriod::with_seed(1, 1_000_000, 99).unwrap();
    for _ in 0..20 {
        assert_eq!(a.sample_period(), b.sample_period());
    }
}

#[test]
fn mock_events_compare_by_variant() {
    assert_eq!(MockTickerEvent::Reset, MockTickerEvent::Reset);
    assert_ne!(MockTickerEvent::Reset, MockTickerEvent::RequestTick);
    assert_ne!(MockTickerEvent::RequestTick, MockTickerEvent::Randomize);
    let copied = MockTickerEvent::Randomize;
    assert_eq!(copied, MockTickerEvent::Randomize);
}

#[test]
fn different_seeds_draw_different_periods() {
    let mut a = RandomPeriod::with_seed(1, 1_000_000_000, 1).unwrap();
    let mut b = RandomPeriod::with_seed(1, 1_000_000_000, 2).unwrap();
    let draws_a: Vec<u64> = (0..8).map(|_| a.sample_period()).collect();
    let draws_b: Vec<u64> = (0..8).map(|_| b.sample_period()).collect();
    assert_ne!(draws_a, draws_b);
}
