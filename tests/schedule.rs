use practris::schedule::TickClock;

#[test]
fn one_tick_per_period() {
    let mut c = TickClock::new(0);
    assert_eq!(c.update(16_666, false), 0);
    assert_eq!(c.update(16_667, false), 1);
    assert_eq!(c.update(33_333, false), 0);
    assert_eq!(c.update(33_334, false), 1);
    assert_eq!(c.update(1_000_000, false), 58);
}

#[test]
fn sub_period_calls_do_not_drift() {
    let mut c = TickClock::new(0);
    let mut total = 0u32;
    for i in 1..=600u64 {
        total += c.update(i * 1_000, false);
    }
    assert_eq!(total, 36);
    let mut d = TickClock::new(0);
    assert_eq!(d.update(600_000, false), 36);
}

#[test]
fn long_lag_is_dropped() {
    let mut c = TickClock::new(0);
    assert_eq!(c.update(10_000_000, false), 0);
    assert_eq!(c.update(10_016_667, false), 1);
    let mut d = TickClock::new(0);
    assert_eq!(d.update(9_999_999, false), 599);
}

#[test]
fn pause_builds_no_debt() {
    let mut c = TickClock::new(0);
    assert_eq!(c.update(5_000_000, true), 0);
    assert_eq!(c.update(5_016_000, false), 0);
    assert_eq!(c.update(5_016_667, false), 1);
}

#[test]
fn clock_going_back_runs_nothing() {
    let mut c = TickClock::new(1_000_000);
    assert_eq!(c.update(500_000, false), 0);
    assert_eq!(c.update(1_016_667, false), 1);
}
