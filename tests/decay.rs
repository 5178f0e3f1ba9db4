use easy_gcode_gen::decay::{decay_factor, decayed_feed, DecayShape, DECAY_ONE};

#[test]
fn decay_is_one_at_centre() {
    let shape = DecayShape::new(105, 100);
    assert_eq!(decay_factor(0, 20_000_000, shape), DECAY_ONE);
}

#[test]
fn decay_is_zero_at_taper_end() {
    let shape = DecayShape::new(105, 100);
    assert_eq!(decay_factor(10_500_000, 20_000_000, shape), 0);
}

#[test]
fn decay_at_rim_matches_formula() {
    let shape = DecayShape::new(105, 100);
    let f = decay_factor(10_000_000, 20_000_000, shape);
    let expected = (1.0 - (1.0f64 / 1.05).powi(2)) * 1e6;
    assert!((f as f64 - expected).abs() <= 1.0);
}

#[test]
fn decay_goes_negative_beyond_taper() {
    let shape = DecayShape::new(1, 1);
    // 1 - (2 * 15 / 20)^2 = -1.25
    assert_eq!(decay_factor(15_000_000, 20_000_000, shape), -1_250_000);
}

#[test]
fn decayed_feed_clamps_negative_factor() {
    assert_eq!(decayed_feed(1000, -5), 0);
    assert_eq!(decayed_feed(1000, DECAY_ONE), 1000);
    assert_eq!(decayed_feed(1000, 500_000), 500);
}

#[test]
fn decayed_feed_at_rim_is_smaller() {
    let shape = DecayShape::new(105, 100);
    let factor = decay_factor(10_000_000, 20_000_000, shape);
    let nominal: i64 = 123_456;
    assert!(decayed_feed(nominal, factor) < nominal);
}
