use easy_gcode_gen::geometry::{cos_deg, isqrt, point_distance, scale_unit, sin_deg, Point, UNIT};

#[test]
fn isqrt_rounds_down() {
    assert_eq!(isqrt(0), 0);
    assert_eq!(isqrt(15), 3);
    assert_eq!(isqrt(16), 4);
    assert_eq!(isqrt(17), 4);
    assert_eq!(isqrt(1u128 << 64), 1u64 << 32);
}

#[test]
fn distance_three_four_five() {
    let a = Point::new(0, 0, 0);
    let b = Point::new(3_000, 4_000, 0);
    assert_eq!(point_distance(a, b), 5_000);
    assert_eq!(point_distance(b, a), 5_000);
}

#[test]
fn distance_across_whole_range() {
    let a = Point::new(i32::MIN, i32::MIN, i32::MIN);
    let b = Point::new(i32::MAX, i32::MAX, i32::MAX);
    let expected = (u32::MAX as f64) * 3f64.sqrt();
    assert!((point_distance(a, b) as f64 - expected).abs() < 2.0);
}

#[test]
fn unit_circle_table() {
    assert_eq!(sin_deg(0), 0);
    assert_eq!(sin_deg(90), UNIT);
    assert_eq!(sin_deg(30), 500_000_000);
    assert_eq!(sin_deg(210), -500_000_000);
    assert_eq!(cos_deg(180), -UNIT);
    assert_eq!(cos_deg(360 + 60), 500_000_000);
    for d in (0..720u64).step_by(5) {
        let exp = ((d as f64).to_radians().sin() * 1e9).round() as i64;
        assert!((sin_deg(d) - exp).abs() <= 1, "{}", d);
    }
}

#[test]
fn scale_unit_rounds_toward_zero() {
    assert_eq!(scale_unit(3, 500_000_000), 1);
    assert_eq!(scale_unit(3, -500_000_000), -1);
    assert_eq!(scale_unit(2_000_000, -UNIT), -2_000_000);
}
