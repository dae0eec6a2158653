use mandala::color::Color;
use mandala::fixed::{dot_product, lerp, UNIT};

#[test]
fn color_channels_are_blended_one_by_one() {
    let closed = Color { r: 0, g: 1_000_000, b: 1_000_000, a: 100_000 };
    let open = Color { r: 1_000_000, g: 0, b: 0, a: 1_000_000 };
    assert_eq!(
        closed.interpolate(&open, 500_000),
        Color { r: 500_000, g: 500_000, b: 500_000, a: 550_000 }
    );
    assert_eq!(closed.interpolate(&open, 0), closed);
    assert_eq!(closed.interpolate(&open, UNIT), open);
}

#[test]
fn color_blend_goes_past_its_ends() {
    let closed = Color { r: 0, g: 1_000_000, b: 1_000_000, a: 100_000 };
    let open = Color { r: 1_000_000, g: 0, b: 0, a: 1_000_000 };
    assert_eq!(
        closed.interpolate(&open, 2_000_000),
        Color { r: 2_000_000, g: -1_000_000, b: -1_000_000, a: 1_900_000 }
    );
    assert_eq!(
        closed.interpolate(&open, -1_000_000),
        Color { r: -1_000_000, g: 2_000_000, b: 2_000_000, a: -800_000 }
    );
}

#[test]
fn red_is_opaque_red() {
    assert_eq!(Color::red(), Color { r: 1_000_000, g: 0, b: 0, a: 1_000_000 });
}

#[test]
fn lerp_rounds_down() {
    assert_eq!(lerp(0, 10, 333_333), 3);
    assert_eq!(lerp(0, -10, 333_333), -4);
    assert_eq!(lerp(10, 0, 333_333), 6);
    assert_eq!(lerp(0, 1, 1), 0);
    assert_eq!(lerp(0, -1, 1), -1);
    assert_eq!(lerp(7, 7, 123_456), 7);
}

#[test]
fn lerp_is_pinned_to_the_number_range() {
    assert_eq!(lerp(0, i64::MAX, 2_000_000), i64::MAX);
    assert_eq!(lerp(0, i64::MIN, 2_000_000), i64::MIN);
    assert_eq!(lerp(i64::MIN, i64::MAX, UNIT), i64::MAX);
    assert_eq!(lerp(i64::MAX, i64::MIN, UNIT), i64::MIN);
    assert_eq!(lerp(i64::MIN, i64::MAX, i64::MAX), i64::MAX);
    assert_eq!(lerp(i64::MIN, i64::MAX, i64::MIN), i64::MIN);
}

#[test]
fn dot_product_scales_back_and_rounds_down() {
    assert_eq!(dot_product(1_500_000, 2_500_000, -500_000, 3_000_000, 7, 9), 2_250_000);
    assert_eq!(dot_product(3, 3, 0, 0, 0, 0), 0);
    assert_eq!(dot_product(-3, 3, 0, 0, 0, 0), -1);
    assert_eq!(dot_product(999_999, 1, 1, 1, 0, 0), 1);
}

#[test]
fn dot_product_is_pinned_to_the_number_range() {
    let max = i64::MAX;
    let min = i64::MIN;
    assert_eq!(dot_product(max, max, max, max, max, max), max);
    assert_eq!(dot_product(min, max, 0, 0, 0, 0), min);
    assert_eq!(dot_product(min, min, min, min, min, min), max);
    assert_eq!(dot_product(max, max, min, max, 0, 0), -9_223_372_036_855);
}
