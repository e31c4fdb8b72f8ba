use duel::timer::Timer;

#[test]
fn fresh_timer_is_unfinished() {
    let t = Timer::new(1_000);
    assert_eq!(t.elapsed, 0);
    assert!(!t.finished());
    assert!(!t.just_finished());
}

#[test]
fn tick_accumulates_and_crosses_once() {
    let mut t = Timer::new(1_000);
    t.tick(400);
    assert_eq!(t.elapsed, 400);
    assert!(!t.finished());
    assert!(!t.just_finished());
    t.tick(700);
    assert_eq!(t.elapsed, 1_000);
    assert!(t.finished());
    assert!(t.just_finished());
    t.tick(5);
    assert!(t.finished());
    assert!(!t.just_finished());
    t.tick(0);
    assert!(!t.just_finished());
}

#[test]
fn exact_duration_crosses() {
    let mut t = Timer::new(64_000);
    for _ in 0..3 {
        t.tick(16_000);
        assert!(!t.just_finished());
    }
    t.tick(16_000);
    assert!(t.just_finished());
    assert_eq!(t.elapsed, 64_000);
}

#[test]
fn reset_starts_over_and_clears_latch() {
    let mut t = Timer::new(10);
    t.tick(10);
    assert!(t.just_finished());
    t.reset();
    assert_eq!(t.elapsed, 0);
    assert!(!t.finished());
    assert!(!t.just_finished());
    assert_eq!(t.duration, 10);
}

#[test]
fn set_elapsed_arms_timer() {
    let mut t = Timer::new(1_000_000);
    t.set_elapsed(1_000_000);
    assert!(t.finished());
    assert!(!t.just_finished());
    t.tick(16_000);
    assert!(!t.just_finished());
}

#[test]
fn set_elapsed_is_held_to_duration() {
    let mut t = Timer::new(100);
    t.set_elapsed(250);
    assert_eq!(t.elapsed, 100);
    t.set_elapsed(30);
    assert_eq!(t.elapsed, 30);
    assert!(!t.finished());
}

#[test]
fn huge_tick_does_not_overflow() {
    let mut t = Timer::new(u64::MAX);
    t.tick(u64::MAX - 1);
    t.tick(u64::MAX);
    assert_eq!(t.elapsed, u64::MAX);
    assert!(t.just_finished());
}
