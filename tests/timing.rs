use auto_input::interval::{calc_interval_ms, checked_interval_ms};
use auto_input::velocity::{per_tick_magnitude, sleep_micros};

#[test]
fn interval_combines_all_units() {
    assert_eq!(calc_interval_ms(0, 1, 30, 500), 90500);
    assert_eq!(calc_interval_ms(2, 0, 0, 0), 7_200_000);
    assert_eq!(calc_interval_ms(1, 2, 3, 4), 3_723_004);
}

#[test]
fn interval_of_zero_duration_is_zero() {
    assert_eq!(calc_interval_ms(0, 0, 0, 0), 0);
}

#[test]
fn checked_interval_reports_overflow() {
    assert_eq!(checked_interval_ms(0, 1, 30, 500), Some(90500));
    assert_eq!(checked_interval_ms(u64::MAX, 0, 0, 0), None);
    assert_eq!(checked_interval_ms(0, 0, 0, u64::MAX), Some(u64::MAX));
    assert_eq!(checked_interval_ms(0, 0, 1, u64::MAX), None);
}

#[test]
fn drag_speed_ten_moves_ten_pixels_every_16ms() {
    assert_eq!(per_tick_magnitude(10), 10);
    assert_eq!(sleep_micros(10), 16000);
}

#[test]
fn drag_speed_one_moves_one_pixel_every_16ms() {
    assert_eq!(per_tick_magnitude(1), 1);
    assert_eq!(sleep_micros(1), 16000);
}

#[test]
fn high_drag_speed_hits_sleep_floor() {
    assert_eq!(per_tick_magnitude(1000), 10);
    assert_eq!(sleep_micros(1000), 200);
    assert_eq!(sleep_micros(i32::MAX), 200);
}

#[test]
fn drag_speed_is_clamped_to_one() {
    assert_eq!(per_tick_magnitude(0), 1);
    assert_eq!(per_tick_magnitude(-7), 1);
    assert_eq!(sleep_micros(0), 16000);
    assert_eq!(sleep_micros(i32::MIN), 16000);
}

#[test]
fn drag_speed_above_cap_shortens_sleep() {
    assert_eq!(per_tick_magnitude(5), 5);
    assert_eq!(sleep_micros(5), 16000);
    assert_eq!(sleep_micros(100), 1600);
    assert_eq!(sleep_micros(500), 320);
    assert_eq!(sleep_micros(30), 5333);
}
