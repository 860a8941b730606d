use turboballs::flicker::DEFAULT_FLICKER_TIME_US;
use turboballs::Flicker;

#[test]
fn new_timer_has_default_period() {
    let f = Flicker::new();
    assert_eq!(f.flicker_time_us, 750_000);
    assert_eq!(f.flicker_time_us, DEFAULT_FLICKER_TIME_US);
    assert_eq!(f.time_us, 0);
}

#[test]
fn accumulates_until_period_passed() {
    let mut f = Flicker::new();
    assert!(!f.process(500_000));
    assert_eq!(f.time_us, 500_000);
    assert!(!f.process(200_000));
    assert_eq!(f.time_us, 700_000);
    assert!(f.process(100_000));
    assert_eq!(f.time_us, 0);
}

#[test]
fn reaching_period_exactly_does_not_toggle() {
    let mut f = Flicker::new();
    assert!(!f.process(750_000));
    assert_eq!(f.time_us, 750_000);
    assert!(f.process(1));
    assert_eq!(f.time_us, 0);
}

#[test]
fn huge_frame_toggles_without_overflow() {
    let mut f = Flicker::new();
    assert!(!f.process(10));
    assert!(f.process(u64::MAX));
    assert_eq!(f.time_us, 0);
}

#[test]
fn shortened_period_toggles_on_next_frame() {
    let mut f = Flicker::new();
    assert!(!f.process(600_000));
    f.flicker_time_us = 100_000;
    assert!(f.process(0));
    assert_eq!(f.time_us, 0);
    assert_eq!(f.flicker_time_us, 100_000);
}

#[test]
fn zero_period_toggles_every_nonempty_frame() {
    let mut f = Flicker::new();
    f.flicker_time_us = 0;
    assert!(!f.process(0));
    assert!(f.process(1));
    assert!(f.process(16_667));
}
