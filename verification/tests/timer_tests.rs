use thunder::timer::{Timer, TimerMode};

#[test]
fn once_timer_fires_at_duration_and_stays_finished() {
    let mut t = Timer::new(100, TimerMode::Once);
    assert!(!t.is_finished());
    assert!(!t.tick(40));
    assert_eq!(t.elapsed_ms, 40);
    assert!(!t.is_finished());
    assert!(t.tick(60));
    assert!(t.is_finished());
    assert!(t.has_just_finished());
    assert_eq!(t.elapsed_ms, 100);
    // Further ticks change nothing and never report firing again.
    assert!(!t.tick(1000));
    assert!(t.is_finished());
    assert!(!t.has_just_finished());
    assert_eq!(t.elapsed_ms, 100);
}

#[test]
fn once_timer_overshoot_clamps_elapsed() {
    let mut t = Timer::new(50, TimerMode::Once);
    assert!(t.tick(1_000_000));
    assert_eq!(t.elapsed_ms, 50);
    assert_eq!(t.remaining_ms(), 0);
}

#[test]
fn repeating_timer_wraps_and_fires_once_per_call() {
    let mut t = Timer::new(100, TimerMode::Repeating);
    assert!(!t.tick(99));
    assert!(t.tick(1));
    assert_eq!(t.elapsed_ms, 0);
    // One oversized tick covering several periods still reports a
    // single completion, and the elapsed time wraps modulo the
    // duration.
    assert!(t.tick(250));
    assert_eq!(t.elapsed_ms, 50);
    assert!(!t.tick(20));
    assert_eq!(t.elapsed_ms, 70);
}

#[test]
fn zero_duration_fires_immediately() {
    let mut once = Timer::new(0, TimerMode::Once);
    assert!(!once.is_finished());
    assert!(once.tick(0));
    assert!(once.is_finished());
    assert!(!once.tick(10));

    let mut rep = Timer::new(0, TimerMode::Repeating);
    assert!(rep.tick(0));
    assert!(rep.tick(7));
    assert_eq!(rep.elapsed_ms, 0);
}

#[test]
fn paused_timer_ignores_ticks() {
    let mut t = Timer::new(100, TimerMode::Once);
    t.tick(60);
    t.pause();
    assert!(!t.tick(1000));
    assert_eq!(t.elapsed_ms, 60);
    assert!(t.is_paused());
    t.unpause();
    assert!(t.tick(40));
}

#[test]
fn reset_rewinds_and_rearms() {
    let mut t = Timer::new(100, TimerMode::Once);
    t.tick(100);
    assert!(t.is_finished());
    t.reset();
    assert!(!t.is_finished());
    assert_eq!(t.elapsed_ms, 0);
    assert_eq!(t.remaining_ms(), 100);
    assert!(t.tick(100));
}
