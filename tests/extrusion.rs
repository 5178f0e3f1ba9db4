use easy_gcode_gen::error::GcodeError;
use easy_gcode_gen::extrusion::{required_feed, FLOW_ONE};

const MM: u64 = 1_000_000;

#[test]
fn feed_for_ten_millimetres_of_standard_bead() {
    let f = required_feed(10 * MM, 200_000, 400_000, 1_750_000, FLOW_ONE).unwrap();
    let expected = 10.0e6 * (0.2 * 0.4) / (std::f64::consts::PI * 0.875 * 0.875);
    assert!((f as f64 - expected).abs() < 10.0);
    assert_eq!(f, 332_601);
}

#[test]
fn feed_zero_filament_diameter_is_invalid() {
    assert_eq!(required_feed(10 * MM, 200_000, 400_000, 0, FLOW_ONE), Err(GcodeError::InvalidConfiguration));
}

#[test]
fn feed_doubles_with_distance_and_flow() {
    let f1 = required_feed(10 * MM, 200_000, 400_000, 1_750_000, FLOW_ONE).unwrap();
    let f2 = required_feed(20 * MM, 200_000, 400_000, 1_750_000, FLOW_ONE).unwrap();
    let f3 = required_feed(10 * MM, 200_000, 400_000, 1_750_000, 2 * FLOW_ONE).unwrap();
    assert!(2 * f1 <= f2 && f2 < 2 * f1 + 2);
    assert!(2 * f1 <= f3 && f3 < 2 * f1 + 2);
}

#[test]
fn feed_scales_with_cross_section() {
    let f1 = required_feed(10 * MM, 200_000, 400_000, 1_750_000, FLOW_ONE).unwrap();
    let f2 = required_feed(10 * MM, 400_000, 400_000, 1_750_000, FLOW_ONE).unwrap();
    let f3 = required_feed(10 * MM, 400_000, 200_000, 1_750_000, FLOW_ONE).unwrap();
    assert!(2 * f1 <= f2 && f2 < 2 * f1 + 2);
    assert_eq!(f1, f3);
}

#[test]
fn feed_zero_distance_is_zero() {
    assert_eq!(required_feed(0, 200_000, 400_000, 1_750_000, FLOW_ONE), Ok(0));
}

#[test]
fn feed_beyond_128_bits_is_out_of_range() {
    assert_eq!(required_feed(u64::MAX, u32::MAX, u32::MAX, 1, u16::MAX), Err(GcodeError::OutOfRange));
}
