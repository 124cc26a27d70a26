use fakon::can_periodic;
use fakon::every::Every;
use fakon::periodic::{common_period_ms, message_due, rate_period_ms, PeriodicGroup};
use fakon::periodic_tick::{ticker_duration, ticks_per_period, Ticker};
use fakon::repeater::{Period, PeriodSet, Repeater};

#[test]
fn base_tick_is_gcd_of_periods() {
    assert_eq!(common_period_ms(&[1000, 200, 100, 50, 20, 10]), 10);
    assert_eq!(common_period_ms(&[30, 45]), 15);
    assert_eq!(common_period_ms(&[7]), 7);
    assert_eq!(common_period_ms(&[12, 18, 8]), 2);
    assert_eq!(ticker_duration(), 10);
    assert_eq!(ticks_per_period(Period::Hz1), 100);
    assert_eq!(ticks_per_period(Period::Hz5), 20);
    assert_eq!(ticks_per_period(Period::Hz100), 1);
    assert_eq!(rate_period_ms(50), 20);
}

#[test]
fn no_drift_at_exact_multiples() {
    let t0 = 1_000;
    let mut group = PeriodicGroup::new(10, t0);
    let mut p = group.new_period(50);
    let mut fired = Vec::new();
    for _ in 0..30 {
        let tick = group.next_poll();
        // Each poll happens a little late, but never a whole period late.
        if p.due(&group, tick + 3) {
            fired.push(tick);
        }
    }
    // The deadlines stay at t0 + k * 50; each fires on the first poll at or
    // after it.
    assert_eq!(fired, vec![1_010, 1_050, 1_100, 1_150, 1_200, 1_250, 1_300]);
    assert_eq!(p.next, t0 + 7 * 50);
}

#[test]
fn bounded_catch_up_after_stall() {
    let mut group = PeriodicGroup::new(10, 0);
    let mut p = group.new_period(50);
    assert!(p.due(&group, 0));
    assert_eq!(p.next, 50);
    // Stalled well over two periods.
    group.last = 300;
    assert!(p.due(&group, 305));
    assert_eq!(p.next, 355);
    // No burst: the next poll at the same time does not fire.
    assert!(!p.due(&group, 305));
    group.last = 350;
    assert!(!p.due(&group, 352));
    group.last = 360;
    assert!(p.due(&group, 361));
    assert_eq!(p.next, 405);
}

#[test]
fn repeater_reports_due_rates() {
    let mut r = Repeater::new(0);
    assert_eq!(r.next_tick, 10);
    let due = r.tick(10);
    for p in [Period::Hz1, Period::Hz5, Period::Hz10, Period::Hz20, Period::Hz50, Period::Hz100] {
        assert!(due.contains(p));
    }
    assert_eq!(r.next_tick, 20);
    let due = r.tick_filtered(PeriodSet::all(), 20).unwrap();
    assert!(due.contains(Period::Hz100));
    assert!(!due.contains(Period::Hz50));
    let due = r.tick_filtered(PeriodSet::all(), 30).unwrap();
    assert!(due.contains(Period::Hz50));
    assert!(!due.contains(Period::Hz20));
}

#[test]
fn repeater_filters_and_skips() {
    let mut r = Repeater::new(0);
    let mut only_slow = PeriodSet::empty();
    assert!(only_slow.is_empty());
    only_slow.insert(Period::Hz10);
    assert!(!only_slow.is_empty());
    // Tick 0: Hz10 is due.
    assert!(r.tick_filtered(only_slow, 10).unwrap().contains(Period::Hz10));
    // Ticks 1 to 9: nothing enabled is due.
    for k in 1..10u64 {
        assert!(r.tick_filtered(only_slow, 10 + 10 * k).is_none());
    }
    assert_eq!(r.ticks, 10);
    // Tick 10 is served late, at 175: the missed ticks are skipped.
    assert!(r.tick_filtered(only_slow, 175).unwrap().contains(Period::Hz10));
    assert_eq!(r.next_tick, 180);
    assert_eq!(r.ticks, 17);
}

#[test]
fn ticker_announces_rates() {
    let mut t = Ticker::new(5);
    let first = t.on_tick();
    assert!(first.contains(Period::Hz1));
    assert_eq!(t.next, 15);
    let second = t.on_tick();
    assert!(second.contains(Period::Hz100));
    assert!(!second.contains(Period::Hz50));
    assert_eq!(Period::Hz20.duration(), 50);
    assert_eq!(Period::Hz20.rate(), 20);
    assert_eq!(Period::Hz20.multiplier(), 5);
    assert!(Period::Hz20.due_on(15));
    assert!(!Period::Hz20.due_on(16));
    assert_eq!(Period::from_index(6), None);
}

#[test]
fn every_advances_by_one_period() {
    let mut e = Every::new(20, 100);
    assert_eq!(e.next(100), 100);
    assert_eq!(e.next(150), 150);
    assert_eq!(e.next(201), 200);
    assert_eq!(e.deadline, 250);
}

#[test]
fn every_skips_ahead_after_stall() {
    let mut e = Every::new(20, 0);
    assert_eq!(e.next(0), 0);
    assert_eq!(e.deadline, 50);
    // Stalled for well over two periods.
    assert_eq!(e.next(180), 50);
    assert_eq!(e.deadline, 230);
    // No burst: the next wait is a whole period away.
    assert_eq!(e.next(180), 230);
    assert_eq!(e.deadline, 280);
}

#[test]
fn callback_period() {
    let mut p = can_periodic::Period::new(10);
    assert_eq!(p.advance(100), Some(110));
    assert_eq!(p.next, 110);
    let mut end = can_periodic::Period::new(u64::MAX - 5);
    assert_eq!(end.advance(10), None);
    assert_eq!(end.next, u64::MAX - 5);
    end.restart(3);
    assert_eq!(end.next, 3);
}

#[test]
fn message_due_every_nth_tick() {
    assert!(message_due(50, 10, 0));
    assert!(!message_due(50, 10, 3));
    assert!(message_due(50, 10, 5));
    assert!(message_due(10, 10, 7));
}
