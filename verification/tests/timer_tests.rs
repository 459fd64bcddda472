use sldshow2::slideshow;
use sldshow2::timer::{sanitize_timer, SlideshowTimer, TimerBase, TIMER_MIN_MS};

#[test]
fn slideshow_timer_zero_interval_starts_paused() {
    let timer = SlideshowTimer::new(0, 0);
    assert!(timer.paused());
}

#[test]
fn slideshow_timer_negative_interval_starts_paused() {
    let timer = SlideshowTimer::new(-1000, 0);
    assert!(timer.paused());
}

#[test]
fn slideshow_timer_positive_interval_not_paused() {
    let timer = SlideshowTimer::new(5000, 0);
    assert!(!timer.paused());
    assert_eq!(timer.interval_ms, 5000);
}

#[test]
fn slideshow_timer_toggle_pause_flips_state() {
    let mut timer = SlideshowTimer::new(5000, 0);
    let now_paused = timer.toggle_pause(10);
    assert!(now_paused);
    assert!(timer.paused());
    let now_paused = timer.toggle_pause(20);
    assert!(!now_paused);
    assert!(!timer.paused());
}

#[test]
fn slideshow_timer_set_duration_zero_pauses() {
    let mut timer = SlideshowTimer::new(5000, 0);
    timer.set_duration(0, 0);
    assert!(timer.paused());
}

#[test]
fn slideshow_timer_set_duration_positive_preserves_pause_state() {
    let mut timer = SlideshowTimer::new(5000, 0);
    timer.toggle_pause(0);
    assert!(timer.paused());
    timer.set_duration(3000, 0);
    assert!(
        timer.paused(),
        "set_duration must not unpause a user-paused timer"
    );
    assert_eq!(timer.interval_ms, 3000);
}

#[test]
fn slideshow_timer_set_duration_positive_unpauses_timer_paused_by_zero() {
    let mut timer = SlideshowTimer::new(5000, 0);
    timer.set_duration(0, 0);
    assert!(timer.paused(), "timer should be paused after set_duration(0)");
    timer.set_duration(3000, 0);
    assert!(
        !timer.paused(),
        "set_duration with positive value must unpause a timer-paused timer"
    );
    assert_eq!(timer.interval_ms, 3000);
}

#[test]
fn slideshow_timer_set_duration_positive_updates_interval_when_running() {
    let mut timer = SlideshowTimer::new(5000, 0);
    assert!(!timer.paused());
    timer.set_duration(3000, 0);
    assert!(!timer.paused());
    assert_eq!(timer.interval_ms, 3000);
}

#[test]
fn sanitize_timer_zero_returns_zero() {
    assert_eq!(sanitize_timer(0), 0);
}

#[test]
fn sanitize_timer_negative_returns_zero() {
    assert_eq!(sanitize_timer(-1000), 0);
    assert_eq!(sanitize_timer(-1), 0);
}

#[test]
fn sanitize_timer_below_min_clamps_to_min() {
    assert_eq!(sanitize_timer(1), TIMER_MIN_MS);
    assert_eq!(sanitize_timer(50), TIMER_MIN_MS);
    assert_eq!(sanitize_timer(99), TIMER_MIN_MS);
}

#[test]
fn sanitize_timer_at_min_preserved() {
    assert_eq!(sanitize_timer(100), TIMER_MIN_MS);
}

#[test]
fn sanitize_timer_above_min_preserved() {
    assert_eq!(sanitize_timer(5000), 5000);
    assert_eq!(sanitize_timer(3_600_000), 3_600_000);
}

#[test]
fn slideshow_timer_fires_once_per_interval() {
    let mut timer = SlideshowTimer::new(1000, 0);
    assert!(!timer.update(999));
    assert!(timer.update(1000));
    assert!(!timer.update(1500));
    assert!(timer.update(2000));
}

#[test]
fn paused_slideshow_timer_never_fires() {
    let mut timer = SlideshowTimer::new(1000, 0);
    timer.toggle_pause(0);
    assert!(!timer.update(100_000));
    timer.toggle_pause(200_000);
    assert!(!timer.update(200_500));
    assert!(timer.update(201_000));
}

#[test]
fn zero_duration_takes_over_a_user_pause() {
    let mut timer = SlideshowTimer::new(1000, 0);
    timer.toggle_pause(0);
    timer.set_duration(2000, 0);
    assert!(timer.paused());
    timer.set_duration(0, 0);
    assert!(timer.paused());
    assert!(!timer.paused_by_user);
    timer.set_duration(2000, 0);
    assert!(!timer.paused());
}

#[test]
fn timer_base_toggle_and_reset() {
    let mut base = TimerBase::new(false, 5);
    assert!(base.toggle_pause(10));
    assert_eq!(base.last_tick_ms, 5);
    assert!(!base.toggle_pause(20));
    assert_eq!(base.last_tick_ms, 20);
    base.reset(30);
    assert_eq!(base.last_tick_ms, 30);
    assert!(!base.paused);
}

#[test]
fn simple_slideshow_timer_minimum_and_pause() {
    let t = slideshow::SlideshowTimer::new(0, 0);
    assert!(t.paused);
    assert_eq!(t.interval_ms, slideshow::MIN_INTERVAL_MS);
    let t = slideshow::SlideshowTimer::new(50, 0);
    assert!(!t.paused);
    assert_eq!(t.interval_ms, 100);
}

#[test]
fn simple_slideshow_timer_fires_and_pauses() {
    let mut t = slideshow::SlideshowTimer::new(1000, 0);
    assert!(!t.update(500));
    assert!(t.update(1000));
    t.toggle_pause(1000);
    assert!(!t.update(5000));
    assert_eq!(t.last_tick_ms, 5000);
    t.toggle_pause(5000);
    assert!(t.update(6000));
    t.set_duration(2000);
    assert_eq!(t.duration(), 2000);
    t.set_duration(-5);
    assert_eq!(t.duration(), 100);
}
