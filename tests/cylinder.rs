use easy_gcode_gen::cylinder::{
    blend_width, is_blending, last_full_theta, print_cylinder, spiral_radius, step_radius, theta_limit, used_radius,
};
use easy_gcode_gen::decay::DecayShape;
use easy_gcode_gen::error::GcodeError;
use easy_gcode_gen::extrusion::FLOW_ONE;
use easy_gcode_gen::geometry::Point;
use easy_gcode_gen::printer::{Command, Printer};

const MM: u32 = 1_000_000;

fn standard() -> Printer {
    Printer::new(2000, 2700, 200_000, 400_000, 1_750_000, FLOW_ONE).unwrap()
}

fn centre() -> Point {
    Point::new(150_000_000, 150_000_000, 0)
}

#[test]
fn spiral_numbers_for_twenty_mm_disc() {
    assert_eq!(used_radius(20 * MM, 4 * MM), 9_000_000);
    assert_eq!(last_full_theta(20 * MM, 4 * MM), 810);
    assert!(((810.0f64).to_radians() - 14.137).abs() < 0.001);
    assert_eq!(spiral_radius(4 * MM, 180), 2_000_000);
    assert_eq!(theta_limit(20 * MM, 4 * MM), 1170);
}

#[test]
fn used_radius_may_be_negative() {
    assert_eq!(used_radius(1, 7), -2);
}

#[test]
fn blend_starts_at_last_full_theta() {
    assert!(!is_blending(20 * MM, 4 * MM, 805));
    assert!(is_blending(20 * MM, 4 * MM, 810));
    assert_eq!(step_radius(20 * MM, 4 * MM, 805), 8_944_444);
    assert_eq!(step_radius(20 * MM, 4 * MM, 810), 9_000_000);
    assert_eq!(blend_width(20 * MM, 4 * MM, 810), 4_000_000);
    assert_eq!(blend_width(20 * MM, 4 * MM, 1170), 0);
    assert_eq!(step_radius(20 * MM, 4 * MM, 1170), 11_000_000);
}

#[test]
fn cylinder_has_floor_height_over_layer_height_layers() {
    let mut p = standard();
    // 1.0 mm / 0.3 mm: three layers
    print_cylinder(&mut p, 20 * MM, MM, centre(), 4 * MM, 300_000, None).unwrap();
    let steps = (1170 / 5 + 1) as usize;
    let cmds = p.commands();
    assert_eq!(cmds.len(), 3 * (5 + steps));
    for layer in 0..3usize {
        let block = &cmds[layer * (5 + steps)..(layer + 1) * (5 + steps)];
        assert!(matches!(block[0], Command::MoveExtruder { .. }));
        let z = 300_000 * (layer as i32 + 1);
        assert_eq!(block[3], Command::Travel { to: Point::new(150_000_000, 150_000_000, z), feedrate: 2000 });
        // the first printing move stays at the centre
        assert!(matches!(block[5], Command::Extrude { to, .. } if to == Point::new(150_000_000, 150_000_000, z)));
    }
}

#[test]
fn cylinder_last_point_lies_on_outer_circle() {
    let mut p = standard();
    print_cylinder(&mut p, 20 * MM, 200_000, centre(), 4 * MM, 200_000, None).unwrap();
    let last = p.position();
    let dx = (last.x - 150_000_000) as f64;
    let dy = (last.y - 150_000_000) as f64;
    let r = (dx * dx + dy * dy).sqrt();
    assert!((r - 11_000_000.0).abs() < 2.0);
    assert_eq!(last.z, 200_000);
}

#[test]
fn cylinder_is_repeatable() {
    let mut a = standard();
    let mut b = standard();
    print_cylinder(&mut a, 20 * MM, MM, centre(), 400_000, 200_000, None).unwrap();
    print_cylinder(&mut b, 20 * MM, MM, centre(), 400_000, 200_000, None).unwrap();
    assert_eq!(a.commands(), b.commands());
    assert_eq!(a.extruder(), b.extruder());
}

#[test]
fn cylinder_restores_width_and_flow() {
    let mut p = standard();
    p.set_flow_multiplier(2 * FLOW_ONE);
    print_cylinder(&mut p, 10 * MM, 400_000, centre(), 400_000, 200_000, None).unwrap();
    assert_eq!(p.line_width(), 400_000);
    assert_eq!(p.flow_multiplier(), FLOW_ONE);
}

#[test]
fn cylinder_invalid_configuration() {
    let mut p = standard();
    let c = centre();
    assert_eq!(print_cylinder(&mut p, 0, MM, c, 400_000, 200_000, None), Err(GcodeError::InvalidConfiguration));
    assert_eq!(print_cylinder(&mut p, 20 * MM, 0, c, 400_000, 200_000, None), Err(GcodeError::InvalidConfiguration));
    assert_eq!(print_cylinder(&mut p, 20 * MM, MM, c, 0, 200_000, None), Err(GcodeError::InvalidConfiguration));
    assert_eq!(print_cylinder(&mut p, 20 * MM, MM, c, 400_000, 0, None), Err(GcodeError::InvalidConfiguration));
    assert_eq!(print_cylinder(&mut p, 20 * MM, MM, c, 40 * MM, 200_000, None), Err(GcodeError::InvalidConfiguration));
    assert_eq!(
        print_cylinder(&mut p, 20 * MM, MM, c, 400_000, 200_000, Some(DecayShape::new(0, 1))),
        Err(GcodeError::InvalidConfiguration)
    );
    assert!(p.commands().is_empty());
}

#[test]
fn cylinder_out_of_range_near_coordinate_limit() {
    let mut p = standard();
    let edge = Point::new(i32::MAX - 1_000, 0, 0);
    assert_eq!(print_cylinder(&mut p, 20 * MM, 200_000, edge, 4 * MM, 200_000, None), Err(GcodeError::OutOfRange));
}

fn feeds(cmds: &[Command]) -> Vec<i64> {
    let mut out = Vec::new();
    let mut prev: Option<i64> = None;
    for c in cmds {
        if let Command::Extrude { feed, .. } = c {
            if let Some(p) = prev {
                out.push(feed - p);
            }
            prev = Some(*feed);
        } else {
            prev = None;
        }
    }
    out
}

#[test]
fn decayed_layer_feeds_less_near_rim() {
    let mut plain = standard();
    let mut decayed = standard();
    print_cylinder(&mut plain, 20 * MM, 200_000, centre(), 400_000, 200_000, None).unwrap();
    print_cylinder(&mut decayed, 20 * MM, 200_000, centre(), 400_000, 200_000, Some(DecayShape::new(105, 100))).unwrap();
    let fp = feeds(plain.commands());
    let fd = feeds(decayed.commands());
    assert_eq!(fp.len(), fd.len());
    let n = fp.len();
    for i in 0..n {
        assert!(fd[i] <= fp[i]);
    }
    // the outermost moves lie near radius 10 mm, where the taper is strong
    assert!(fd[n - 2] < fp[n - 2]);
    assert!(fd.iter().sum::<i64>() < fp.iter().sum::<i64>());
    // the same points are visited
    let pts = |c: &Command| if let Command::Extrude { to, .. } = c { Some(*to) } else { None };
    let a: Vec<Point> = plain.commands().iter().filter_map(pts).collect();
    let b: Vec<Point> = decayed.commands().iter().filter_map(pts).collect();
    assert_eq!(a, b);
}
