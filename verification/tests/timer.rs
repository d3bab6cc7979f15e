use dicetown::timer::SettleTimer;

#[test]
fn fresh_timer_has_not_run() {
    let timer = SettleTimer::new(100);
    assert_eq!(timer, SettleTimer { elapsed: 0, duration: 100, finished: false });
    assert!(!timer.finished());
    assert_eq!(timer.elapsed(), 0);
    assert_eq!(timer.duration(), 100);
}

#[test]
fn timer_finishes_when_elapsed_reaches_duration() {
    let mut timer = SettleTimer::new(100);
    timer.tick(99);
    assert_eq!(timer, SettleTimer { elapsed: 99, duration: 100, finished: false });
    timer.tick(1);
    assert_eq!(timer, SettleTimer { elapsed: 100, duration: 100, finished: true });
}

#[test]
fn timer_holds_its_duration_once_finished() {
    let mut timer = SettleTimer::new(100);
    timer.tick(250);
    assert_eq!(timer, SettleTimer { elapsed: 100, duration: 100, finished: true });
    timer.tick(1_000);
    assert_eq!(timer, SettleTimer { elapsed: 100, duration: 100, finished: true });
}

#[test]
fn timer_reset_starts_over() {
    let mut timer = SettleTimer::new(100);
    timer.tick(250);
    timer.reset();
    assert_eq!(timer, SettleTimer { elapsed: 0, duration: 100, finished: false });
    timer.tick(40);
    assert_eq!(timer.elapsed(), 40);
    assert!(!timer.finished());
}

#[test]
fn timer_of_no_duration_finishes_at_its_first_tick() {
    let mut timer = SettleTimer::new(0);
    assert!(!timer.finished());
    timer.tick(0);
    assert!(timer.finished());
}

#[test]
fn timer_saturates_instead_of_wrapping() {
    let mut timer = SettleTimer::new(u64::MAX);
    timer.tick(u64::MAX - 1);
    assert_eq!(timer.elapsed(), u64::MAX - 1);
    assert!(!timer.finished());
    timer.tick(5);
    assert_eq!(timer, SettleTimer { elapsed: u64::MAX, duration: u64::MAX, finished: true });
}

#[test]
fn zero_tick_changes_nothing_on_a_running_timer() {
    let mut timer = SettleTimer::new(100);
    timer.tick(30);
    timer.tick(0);
    assert_eq!(timer, SettleTimer { elapsed: 30, duration: 100, finished: false });
}
