use orbit_camera::fixed::{divided_by, saturate, scaled_against, scaled_by, SCALE, WHOLE};
use orbit_camera::smoothing::{approach, smoothing};

#[test]
fn blend_fraction_is_rate_times_dt() {
    // 5 per second over 16 ms is 0.08; 20 per second over 16 ms is 0.32.
    assert_eq!(smoothing(5_000_000, 16_000), 80_000_000_000);
    assert_eq!(smoothing(20_000_000, 16_000), 320_000_000_000);
}

#[test]
fn blend_fraction_never_exceeds_the_whole() {
    assert_eq!(smoothing(100_000_000, 20_000), WHOLE);
    assert_eq!(smoothing(50_000_000, 20_000), WHOLE);
    assert_eq!(smoothing(u64::MAX, u64::MAX), WHOLE);
}

#[test]
fn blend_fraction_is_zero_without_rate_or_time() {
    assert_eq!(smoothing(0, 16_000), 0);
    assert_eq!(smoothing(5_000_000, 0), 0);
    assert_eq!(smoothing(1, 1), 1);
}

#[test]
fn approach_closes_the_fraction_of_the_gap() {
    assert_eq!(approach(0, 1_000_000, 80_000_000_000), 80_000);
    assert_eq!(approach(1_000_000, 0, 80_000_000_000), 920_000);
    assert_eq!(approach(-2_995_732, -1_995_732, 80_000_000_000), -2_915_732);
    assert_eq!(approach(0, 10_000_000, 320_000_000_000), 3_200_000);
}

#[test]
fn approach_rounds_away_from_where_it_stands() {
    // A third of a gap of ten is three and a third: four are closed.
    let third: u64 = WHOLE / 3;
    assert_eq!(approach(0, 10, third), 4);
    assert_eq!(approach(0, -10, third), -4);
    assert_eq!(approach(0, 1, 1), 1);
    assert_eq!(approach(7, 6, 1), 6);
}

#[test]
fn approach_with_no_smoothing_snaps() {
    assert_eq!(approach(-5, 1_000, 0), 1_000);
    assert_eq!(approach(i64::MIN, i64::MAX, 0), i64::MAX);
}

#[test]
fn approach_with_the_whole_fraction_arrives() {
    assert_eq!(approach(-5, 1_000, WHOLE), 1_000);
    assert_eq!(approach(i64::MAX, i64::MIN, WHOLE), i64::MIN);
    assert_eq!(approach(i64::MIN, i64::MAX, WHOLE), i64::MAX);
}

#[test]
fn approach_stays_put_on_the_target() {
    assert_eq!(approach(42, 42, 1), 42);
    assert_eq!(approach(42, 42, WHOLE), 42);
    assert_eq!(approach(42, 42, 0), 42);
}

#[test]
fn smoothing_converges_without_overshoot() {
    let target: i64 = -1_995_732;
    let mut current: i64 = -2_995_732;
    let fraction: u64 = smoothing(5_000_000, 16_000);
    let mut ticks: u32 = 0;
    while current != target {
        let next: i64 = approach(current, target, fraction);
        assert!(next > current);
        assert!(next <= target);
        current = next;
        ticks += 1;
        assert!(ticks < 1_000);
    }
    assert_eq!(approach(current, target, fraction), target);
}

#[test]
fn smoothing_converges_from_above_too() {
    let target: i64 = -7;
    let mut current: i64 = 1_000;
    let mut ticks: u32 = 0;
    while current != target {
        let next: i64 = approach(current, target, 1);
        assert!(next < current);
        assert!(next >= target);
        current = next;
        ticks += 1;
    }
    // With the smallest fraction every tick closes one millionth.
    assert_eq!(ticks, 1_007);
}

#[test]
fn saturate_stops_at_the_ends() {
    assert_eq!(saturate(0), 0);
    assert_eq!(saturate(i64::MAX as i128), i64::MAX);
    assert_eq!(saturate(i64::MAX as i128 + 1), i64::MAX);
    assert_eq!(saturate(i64::MIN as i128 - 1), i64::MIN);
    assert_eq!(saturate(-12), -12);
}

#[test]
fn scaled_by_multiplies_scalars() {
    // 10 pixels at 0.4 degrees a pixel are 4 degrees.
    assert_eq!(scaled_by(10_000_000, 400_000), 4_000_000);
    assert_eq!(scaled_by(-10_000_000, 400_000), -4_000_000);
    assert_eq!(scaled_by(3, 500_000), 1);
    assert_eq!(scaled_by(-3, 500_000), -1);
    assert_eq!(scaled_by(1, 1), 0);
    assert_eq!(scaled_by(i64::MAX, 2 * SCALE), i64::MAX);
    assert_eq!(scaled_by(i64::MIN, 2 * SCALE), i64::MIN);
    assert_eq!(scaled_by(i64::MIN, i64::MIN), i64::MAX);
}

#[test]
fn scaled_against_multiplies_by_the_opposite() {
    assert_eq!(scaled_against(10_000_000, 400_000), -4_000_000);
    assert_eq!(scaled_against(-10_000_000, 300_000), 3_000_000);
    assert_eq!(scaled_against(3, 500_000), -1);
    // 2^63 millionths of a millionth are 9223372036854.775808 millionths.
    assert_eq!(scaled_against(1, i64::MIN), 9_223_372_036_854);
    assert_eq!(scaled_against(i64::MIN, i64::MIN), i64::MIN);
}

#[test]
fn divided_by_divides_scalars() {
    // 32 pixels at 16 pixels a line are 2 lines.
    assert_eq!(divided_by(32_000_000, 16_000_000), 2_000_000);
    assert_eq!(divided_by(-8_000_000, 16_000_000), -500_000);
    assert_eq!(divided_by(1, 3_000_000), 0);
    assert_eq!(divided_by(-1, 3_000_000), 0);
    assert_eq!(divided_by(i64::MAX, 1), i64::MAX);
    assert_eq!(divided_by(i64::MIN, 1), i64::MIN);
}
