use down_core::timer::Timer;

#[test]
fn timer_new_starts_empty() {
    let t = Timer::new(100);
    assert_eq!(t.waittime, 100);
    assert_eq!(t.wait, 0);
}

#[test]
fn timer_fires_once_per_whole_period() {
    let mut t = Timer::new(100);
    assert_eq!(t.wait(99), 0);
    assert_eq!(t.wait(1), 1);
    assert_eq!(t.wait(100), 1);
}

#[test]
fn timer_catches_up_on_large_delta() {
    let mut t = Timer::new(100);
    assert_eq!(t.wait(250), 2);
    assert_eq!(t.wait, 50);
    assert_eq!(t.wait(50), 1);
    assert_eq!(t.wait, 0);
}

#[test]
fn timer_split_deltas_fire_like_one_delta() {
    // Split-invariance: 300 at once vs 250 + 50 vs 99 + 99 + 102.
    let mut a = Timer::new(100);
    let mut b = Timer::new(100);
    let mut c = Timer::new(100);
    let one_call = a.wait(300);
    let two_calls = b.wait(250) + b.wait(50);
    let three_calls = c.wait(99) + c.wait(99) + c.wait(102);
    assert_eq!(one_call, 3);
    assert_eq!(two_calls, 3);
    assert_eq!(three_calls, 3);
    assert_eq!(a.wait, b.wait);
    assert_eq!(a.wait, c.wait);
}

#[test]
fn timer_is_reached_drains_one_period_at_a_time() {
    let mut t = Timer::new(100);
    t.add(250);
    assert!(t.is_reached());
    assert_eq!(t.wait, 150);
    assert!(t.is_reached());
    assert_eq!(t.wait, 50);
    assert!(!t.is_reached());
    assert_eq!(t.wait, 50);
}

#[test]
fn timer_reset_zeroes_accumulator_only() {
    let mut t = Timer::new(80);
    t.add(70);
    t.reset();
    assert_eq!(t.wait, 0);
    assert_eq!(t.waittime, 80);
}

#[test]
fn timer_set_wait_keeps_progress() {
    let mut t = Timer::new(100);
    t.add(50);
    t.set_wait(60);
    assert_eq!(t.waittime, 60);
    assert_eq!(t.wait, 50);
    assert_eq!(t.wait(10), 1);
}
