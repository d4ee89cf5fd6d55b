use brengin::timer::MAX_DURATION_NANOS;
use brengin::Timer;

#[test]
fn timer_just_finishes_on_the_update_that_crosses_the_period() {
    let mut t = Timer::new(100, false);
    assert!(!t.finished());
    t.update(50);
    assert!(!t.finished());
    assert!(!t.just_finished());
    assert_eq!(t.elapsed(), 50);
    t.update(50);
    assert!(t.just_finished());
    assert!(t.finished());
}

#[test]
fn one_shot_timer_stays_finished() {
    let mut t = Timer::new(100, false);
    t.update(150);
    assert!(t.just_finished());
    t.update(10);
    assert!(!t.just_finished());
    assert!(t.finished());
    assert_eq!(t.elapsed(), 160);
}

#[test]
fn repeating_timer_starts_over_when_it_finishes() {
    let mut t = Timer::new(100, true);
    t.update(150);
    assert!(t.just_finished());
    assert!(t.finished());
    assert_eq!(t.elapsed(), 0);
    t.update(10);
    assert!(!t.just_finished());
    assert!(!t.finished());
    assert_eq!(t.elapsed(), 10);
    t.update(90);
    assert!(t.just_finished());
}

#[test]
fn timer_of_zero_period_never_just_finishes() {
    let mut t = Timer::new(0, true);
    assert!(t.finished());
    t.update(5);
    assert!(!t.just_finished());
    assert!(t.finished());
}

#[test]
fn timer_reset_and_reset_period() {
    let mut t = Timer::new(100, true);
    t.update(100);
    assert!(t.just_finished());
    t.update(30);
    t.reset();
    assert_eq!(t.elapsed(), 0);
    assert!(!t.just_finished());
    assert_eq!(t.period(), 100);
    t.update(20);
    t.reset_period(40);
    assert_eq!(t.period(), 40);
    assert_eq!(t.elapsed(), 0);
    assert!(t.repeat);
    t.update(40);
    assert!(t.just_finished());
}

#[test]
fn timer_accepts_the_longest_duration() {
    let mut t = Timer::new(MAX_DURATION_NANOS, false);
    t.update(MAX_DURATION_NANOS);
    assert!(t.just_finished());
    assert_eq!(t.elapsed(), MAX_DURATION_NANOS);
}
