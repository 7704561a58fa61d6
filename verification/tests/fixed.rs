use locomotion::fixed::approach_toward;
use locomotion::fixed::blend_weight_of;
use locomotion::fixed::clamp_i64;
use locomotion::fixed::fixed_mul;
use locomotion::fixed::saturating_sum;
use locomotion::fixed::travel;
use locomotion::fixed::Vec2;
use locomotion::fixed::FULL_BLEND;
use locomotion::fixed::MICROS_PER_SECOND;
use locomotion::fixed::UNIT;

const FRAME: u32 = 16_667;

#[test]
fn constants_are_consistent() {
    assert_eq!(UNIT, 1_000);
    assert_eq!(MICROS_PER_SECOND, 1_000_000);
    assert_eq!(FULL_BLEND, (UNIT * MICROS_PER_SECOND) as u64);
}

#[test]
fn blend_weight_is_rate_times_time() {
    assert_eq!(blend_weight_of(6_000, FRAME), 100_002_000);
    assert_eq!(blend_weight_of(500, FRAME), 8_333_500);
    assert_eq!(blend_weight_of(2_000, FRAME), 33_334_000);
    assert_eq!(blend_weight_of(0, FRAME), 0);
    assert_eq!(blend_weight_of(6_000, 0), 0);
}

#[test]
fn blend_weight_stops_at_full() {
    assert_eq!(blend_weight_of(1_000, 1_000_000), FULL_BLEND);
    assert_eq!(blend_weight_of(1_000, 999_999), 999_999_000);
    assert_eq!(blend_weight_of(6_000, 166_667), FULL_BLEND);
    assert_eq!(blend_weight_of(u32::MAX, u32::MAX), FULL_BLEND);
}

#[test]
fn approach_moves_a_fraction_of_the_distance() {
    assert_eq!(approach_toward(0, 6_000, 6_000, FRAME), 600);
    assert_eq!(approach_toward(600, 6_000, 6_000, FRAME), 1_140);
    assert_eq!(approach_toward(0, 6_000, 500, FRAME), 50);
    assert_eq!(approach_toward(1_000, 0, 6_000, 100_000), 400);
    assert_eq!(approach_toward(0, -12_000, 2_000, FRAME), -400);
    assert_eq!(approach_toward(9_000, -12_000, 2_000, FRAME), 8_300);
    assert_eq!(approach_toward(-1_000, -12_000, 2_000, FRAME), -1_366);
}

#[test]
fn approach_is_mirror_symmetric() {
    assert_eq!(approach_toward(0, -6_000, 6_000, FRAME), -600);
    assert_eq!(approach_toward(5_000, 0, 6_000, FRAME), 4_500);
    assert_eq!(approach_toward(-5_000, 0, 6_000, FRAME), -4_500);
    assert_eq!(approach_toward(111, 0, 6_000, FRAME), 100);
    assert_eq!(approach_toward(-111, 0, 6_000, FRAME), -100);
}

#[test]
fn approach_rounds_toward_the_start() {
    // 50 * 6_000 / 1_000_000_000 is less than one thousandth.
    assert_eq!(approach_toward(50, 0, 6_000, 1), 50);
    assert_eq!(approach_toward(-50, 0, 6_000, 1), -50);
    // 6_000 * 500_000 / 1_000_000_000 = 3 exactly.
    assert_eq!(approach_toward(0, 6_000, 500, 1_000), 3);
}

#[test]
fn approach_lands_on_the_target_and_never_beyond() {
    assert_eq!(approach_toward(50, 0, 6_000, 1_000_000), 0);
    assert_eq!(approach_toward(50, 0, 6_000, u32::MAX), 0);
    assert_eq!(approach_toward(-7, 6_000, 1_000, 1_000_000), 6_000);
    assert_eq!(approach_toward(i64::MIN, i64::MAX, u32::MAX, u32::MAX), i64::MAX);
    assert_eq!(approach_toward(i64::MAX, i64::MIN, u32::MAX, u32::MAX), i64::MIN);
}

#[test]
fn approach_without_time_or_rate_stays() {
    assert_eq!(approach_toward(123, 6_000, 6_000, 0), 123);
    assert_eq!(approach_toward(123, 6_000, 0, FRAME), 123);
    assert_eq!(approach_toward(4_000, 4_000, 6_000, FRAME), 4_000);
}

#[test]
fn approach_covers_the_whole_range() {
    assert_eq!(approach_toward(i64::MIN, i64::MAX, 1_000, 500_000), -1);
    assert_eq!(approach_toward(i64::MAX, i64::MIN, 1, 1), 9_223_372_018_408_031_734);
}

#[test]
fn clamp_limits_to_i64() {
    assert_eq!(clamp_i64(0), 0);
    assert_eq!(clamp_i64(-5), -5);
    assert_eq!(clamp_i64(i64::MAX as i128), i64::MAX);
    assert_eq!(clamp_i64(i64::MAX as i128 + 1), i64::MAX);
    assert_eq!(clamp_i64(i64::MIN as i128), i64::MIN);
    assert_eq!(clamp_i64(i64::MIN as i128 - 1), i64::MIN);
    assert_eq!(clamp_i64(i128::MAX), i64::MAX);
    assert_eq!(clamp_i64(i128::MIN), i64::MIN);
}

#[test]
fn fixed_product_of_thousandths() {
    assert_eq!(fixed_mul(1_000, -200_000), -200_000);
    assert_eq!(fixed_mul(-1_000, -200_000), 200_000);
    assert_eq!(fixed_mul(0, -200_000), 0);
    assert_eq!(fixed_mul(707, -200_000), -141_400);
    assert_eq!(fixed_mul(-707, -200_000), 141_400);
    assert_eq!(fixed_mul(1_999, 1_000), 1_999);
    assert_eq!(fixed_mul(-1_999, 1_000), -1_999);
}

#[test]
fn fixed_product_rounds_toward_zero() {
    assert_eq!(fixed_mul(1, 1), 0);
    assert_eq!(fixed_mul(-1, 999), 0);
    assert_eq!(fixed_mul(3, 500), 1);
    assert_eq!(fixed_mul(-3, 500), -1);
}

#[test]
fn fixed_product_saturates() {
    assert_eq!(fixed_mul(i64::MAX, 2_000), i64::MAX);
    assert_eq!(fixed_mul(i64::MIN, 2_000), i64::MIN);
    assert_eq!(fixed_mul(i64::MIN, -2_000), i64::MAX);
    assert_eq!(fixed_mul(i64::MIN, i64::MIN), i64::MAX);
}

#[test]
fn sum_saturates() {
    assert_eq!(saturating_sum(2, 3), 5);
    assert_eq!(saturating_sum(-2, -3), -5);
    assert_eq!(saturating_sum(i64::MAX, 1), i64::MAX);
    assert_eq!(saturating_sum(i64::MIN, -1), i64::MIN);
    assert_eq!(saturating_sum(i64::MAX, i64::MIN), -1);
}

#[test]
fn travel_is_velocity_times_time_times_scale() {
    assert_eq!(travel(6_000, FRAME, 60), 6_000);
    assert_eq!(travel(-12_000, FRAME, 60), -12_000);
    assert_eq!(travel(600, FRAME, 60), 600);
    assert_eq!(travel(9_000, FRAME, 60), 9_000);
    assert_eq!(travel(1, FRAME, 60), 1);
    assert_eq!(travel(-1, FRAME, 60), -1);
    assert_eq!(travel(1_000, 1_000_000, 1), 1_000);
    assert_eq!(travel(1_000, 500_000, 3), 1_500);
}

#[test]
fn travel_without_time_or_scale_is_nothing() {
    assert_eq!(travel(6_000, 0, 60), 0);
    assert_eq!(travel(6_000, FRAME, 0), 0);
    assert_eq!(travel(0, FRAME, 60), 0);
}

#[test]
fn travel_saturates() {
    assert_eq!(travel(i64::MAX, u32::MAX, u16::MAX), i64::MAX);
    assert_eq!(travel(i64::MIN, u32::MAX, u16::MAX), i64::MIN);
}

#[test]
fn vectors_are_built_from_their_coordinates() {
    assert_eq!(Vec2::new(3, -4), Vec2 { x: 3, y: -4 });
    assert_eq!(Vec2::zero(), Vec2 { x: 0, y: 0 });
}

#[test]
fn vectors_scale_component_by_component() {
    let strength = Vec2::new(-200_000, -200_000);
    assert_eq!(Vec2::new(1_000, 0).scale(strength), Vec2::new(-200_000, 0));
    assert_eq!(Vec2::new(0, -1_000).scale(strength), Vec2::new(0, 200_000));
    assert_eq!(Vec2::new(600, 800).scale(Vec2::new(2_000, -500)), Vec2::new(1_200, -400));
}

#[test]
fn vectors_add_with_saturation() {
    assert_eq!(Vec2::new(1, 2).add_saturating(Vec2::new(10, -20)), Vec2::new(11, -18));
    assert_eq!(
        Vec2::new(i64::MAX, i64::MIN).add_saturating(Vec2::new(5, -5)),
        Vec2::new(i64::MAX, i64::MIN)
    );
}
