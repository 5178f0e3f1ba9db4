use easy_gcode_gen::error::GcodeError;
use easy_gcode_gen::extrusion::{required_feed, FLOW_ONE};
use easy_gcode_gen::geometry::Point;
use easy_gcode_gen::printer::{Command, Printer, EXTRUDER_FEEDRATE};

fn standard() -> Printer {
    Printer::new(2000, 2700, 200_000, 400_000, 1_750_000, FLOW_ONE).unwrap()
}

#[test]
fn new_refuses_zero_filament() {
    assert!(matches!(Printer::new(2000, 2700, 200_000, 400_000, 0, FLOW_ONE), Err(GcodeError::InvalidConfiguration)));
}

#[test]
fn new_starts_at_origin_with_no_feed() {
    let p = standard();
    assert_eq!(p.position(), Point::new(0, 0, 0));
    assert_eq!(p.extruder(), 0);
    assert!(p.commands().is_empty());
}

#[test]
fn travel_moves_without_feed() {
    let mut p = standard();
    p.travel_to(Point::new(30_000_000, 35_000_000, 400_000));
    assert_eq!(p.position(), Point::new(30_000_000, 35_000_000, 400_000));
    assert_eq!(p.extruder(), 0);
    assert_eq!(p.commands()[0], Command::Travel { to: Point::new(30_000_000, 35_000_000, 400_000), feedrate: 2000 });
}

#[test]
fn extrude_adds_model_feed() {
    let mut p = standard();
    p.set_extrusion(1_000);
    p.extrude_to(Point::new(10_000_000, 0, 0)).unwrap();
    assert_eq!(p.extruder(), 1_000 + 332_601);
    assert_eq!(p.commands()[1], Command::Extrude { to: Point::new(10_000_000, 0, 0), feed: 333_601, feedrate: 2700 });
}

#[test]
fn get_extrude_dist_uses_flow_multiplier() {
    let mut p = standard();
    p.set_flow_multiplier(2 * FLOW_ONE);
    let f = p.get_extrude_dist(Point::new(10_000_000, 0, 0)).unwrap();
    assert_eq!(f as u128, required_feed(10_000_000, 200_000, 400_000, 1_750_000, 2 * FLOW_ONE).unwrap());
}

#[test]
fn line_width_change_recomputes_ratio() {
    let mut p = standard();
    p.set_line_width(800_000);
    assert_eq!(p.get_extrude_dist(Point::new(10_000_000, 0, 0)), Ok(665_202));
    p.set_layer_height(100_000);
    assert_eq!(p.get_extrude_dist(Point::new(10_000_000, 0, 0)), Ok(332_601));
}

#[test]
fn explicit_flow_bypasses_model() {
    let mut p = standard();
    p.extrude_with_explicit_flow(Point::new(5, 5, 5), 42).unwrap();
    assert_eq!(p.extruder(), 42);
    assert_eq!(p.position(), Point::new(5, 5, 5));
}

#[test]
fn move_extruder_retracts() {
    let mut p = standard();
    p.move_extruder(-3_000_000).unwrap();
    assert_eq!(p.extruder(), -3_000_000);
    assert_eq!(p.commands()[0], Command::MoveExtruder { feed: -3_000_000, feedrate: EXTRUDER_FEEDRATE });
}

#[test]
fn feed_overflow_leaves_state_unchanged() {
    let mut p = standard();
    p.set_extrusion(i64::MAX);
    let before = p.commands().len();
    assert_eq!(p.extrude_to(Point::new(1_000_000, 0, 0)), Err(GcodeError::OutOfRange));
    assert_eq!(p.move_extruder(1), Err(GcodeError::OutOfRange));
    assert_eq!(p.extruder(), i64::MAX);
    assert_eq!(p.commands().len(), before);
}

#[test]
fn fan_speed_is_clamped_and_rounded() {
    let mut p = standard();
    p.set_fan(1000);
    p.set_fan(5000);
    p.set_fan(500);
    p.set_fan(0);
    assert_eq!(p.commands()[0], Command::SetFan { duty: 255 });
    assert_eq!(p.commands()[1], Command::SetFan { duty: 255 });
    assert_eq!(p.commands()[2], Command::SetFan { duty: 128 });
    assert_eq!(p.commands()[3], Command::SetFan { duty: 0 });
}

#[test]
fn setup_commands_in_order() {
    let mut p = standard();
    p.comment("start");
    p.set_bed_temp(55, false);
    p.set_hotend_temp(200, true);
    p.travel_to(Point::new(1, 2, 3));
    p.home();
    p.level_bed();
    p.absolute_extrusion();
    assert_eq!(p.position(), Point::new(0, 0, 0));
    assert_eq!(
        p.commands().clone(),
        vec![
            Command::Comment { text: "start".to_string() },
            Command::SetBedTemp { celsius: 55, wait: false },
            Command::SetHotendTemp { celsius: 200, wait: true },
            Command::Travel { to: Point::new(1, 2, 3), feedrate: 2000 },
            Command::Home,
            Command::LevelBed,
            Command::AbsoluteExtrusion,
        ]
    );
}

#[test]
fn write_cache_hands_on_and_empties() {
    let mut p = standard();
    p.level_bed();
    let mut sink = vec![Command::Home];
    p.write_cache(&mut sink);
    assert_eq!(sink, vec![Command::Home, Command::LevelBed]);
    assert!(p.commands().is_empty());
}

#[test]
fn feedrate_setters_apply_to_later_moves() {
    let mut p = standard();
    p.set_travel_feedrate(1234);
    p.set_print_feedrate(300);
    p.travel_to(Point::new(1, 1, 1));
    p.extrude_with_explicit_flow(Point::new(2, 2, 2), 1).unwrap();
    assert_eq!(p.commands()[0], Command::Travel { to: Point::new(1, 1, 1), feedrate: 1234 });
    assert_eq!(p.commands()[1], Command::Extrude { to: Point::new(2, 2, 2), feed: 1, feedrate: 300 });
}
