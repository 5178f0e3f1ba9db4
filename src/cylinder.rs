use vstd::prelude::*;
use vstd::arithmetic::div_mod::*;

use crate::decay::{DecayShape, decay_factor, decay_factor_of, decayed_feed, decayed_feed_of, lemma_neg_div};
use crate::error::GcodeError;
use crate::extrusion::FLOW_ONE;
use crate::geometry::{Point, coord_fits, cos_deg, polar_point, scale_unit, sin_deg};
use crate::printer::{Printer, PrinterModel};

verus! {

/// How far the nozzle rises above a layer while moving to its start (1 mm).
pub const LIFT: i32 = 1_000_000;

/// How far the filament is drawn back around that move (3 mm).
pub const RETRACT: i64 = 3_000_000;

/// The angular step of the spiral, in degrees.
pub const STEP_DEG: u64 = 5;

/// The radius of the spiral's outermost circle: half the diameter less a quarter
/// of the line spacing, so that the outer edge of the bead lands on the diameter.
pub open spec fn used_radius_of(diameter: int, spacing: int) -> int {
    (2 * diameter - spacing) / 4
}

/// The angle (degrees) at which the spiral `r = spacing * theta / 360` reaches
/// the used radius, where the blend into a circle begins.
pub open spec fn last_full_theta_of(diameter: int, spacing: int) -> int {
    90 * (2 * diameter - spacing) / spacing
}

/// The largest angle (degrees) swept in a layer: one turn past the last full one.
pub open spec fn theta_limit_of(diameter: int, spacing: int) -> int {
    90 * (2 * diameter + 3 * spacing) / spacing
}

/// The number of angular steps in a layer.
pub open spec fn step_count_of(diameter: int, spacing: int) -> int {
    theta_limit_of(diameter, spacing) / STEP_DEG as int + 1
}

/// Whether `theta` lies in the blend from spiral to circle.
pub open spec fn in_blend(diameter: int, spacing: int, theta: int) -> bool {
    theta * spacing >= 90 * (2 * diameter - spacing)
}

/// The radius of the Archimedean spiral `r = spacing / (2 pi) * theta` at `theta` degrees.
pub open spec fn spiral_radius_of(spacing: int, theta: int) -> int {
    spacing * theta / 360
}

/// The radius at `theta`: the spiral, then the mean of the spiral and the used radius.
pub open spec fn step_radius_of(diameter: int, spacing: int, theta: int) -> int {
    if in_blend(diameter, spacing, theta) {
        (spacing * theta + 90 * (2 * diameter - spacing)) / 720
    } else {
        spiral_radius_of(spacing, theta)
    }
}

/// The line width in the blend: `used_radius + spacing - spacing * theta / 360`,
/// the spacing where the blend begins, falling linearly to zero at the theta limit.
pub open spec fn blend_width_of(diameter: int, spacing: int, theta: int) -> int {
    (90 * (2 * diameter + 3 * spacing) - spacing * theta) / 360
}

/// One spiral-wound cylinder: its size (nm), where its axis stands, the line
/// spacing and layer height (nm), and the taper applied near the rim, if any.
#[derive(Clone, Copy, Debug, PartialEq, Eq, Structural)]
pub struct CylinderJob {
    pub diameter: u32,
    pub height: u32,
    pub start: Point,
    pub spacing: u32,
    pub layer_height: u32,
    pub decay: Option<DecayShape>,
}

impl CylinderJob {
    /// Diameter, height, spacing and layer height are positive, the spacing
    /// leaves a positive used radius, and a taper has a positive shape.
    pub open spec fn valid(self) -> bool {
        &&& self.diameter > 0
        &&& self.height > 0
        &&& self.spacing > 0
        &&& self.layer_height > 0
        &&& self.spacing < 2 * self.diameter
        &&& (self.decay matches Some(shape) ==> shape.valid())
    }

    pub open spec fn layer_count(self) -> int {
        self.height as int / self.layer_height as int
    }

    pub open spec fn step_count(self) -> int {
        step_count_of(self.diameter as int, self.spacing as int)
    }
}

/// `p` moved up by `dz`, if the new height is a coordinate.
pub open spec fn raised(p: Point, dz: int) -> Option<Point> {
    if coord_fits(p.z + dz) {
        Some(Point { z: (p.z + dz) as i32, ..p })
    } else {
        None
    }
}

/// The point at radius `r` and angle `theta` around `center` in plane `z`, if it is representable.
pub open spec fn spiral_point(center: Point, r: nat, theta: nat, z: int) -> Option<Point> {
    let (x, y, zz) = polar_point(center, r, theta, z);
    if coord_fits(x) && coord_fits(y) && coord_fits(zz) {
        Some(Point { x: x as i32, y: y as i32, z: zz as i32 })
    } else {
        None
    }
}

/// Retract, lift, move above the start of layer `layer`, lower onto it, re-prime.
#[verifier::opaque]
pub open spec fn enter_layer(m: PrinterModel, job: CylinderJob, layer: int) -> Option<PrinterModel> {
    match m.move_extruder(-RETRACT) {
        None => None,
        Some(m1) => match raised(m1.position, LIFT as int) {
            None => None,
            Some(p1) => {
                let m2 = m1.travel(p1);
                match raised(job.start, layer * job.layer_height - LIFT) {
                    None => None,
                    Some(p2) => {
                        let m3 = m2.travel(p2);
                        match raised(m3.position, LIFT as int) {
                            None => None,
                            Some(p3) => m3.travel(p3).move_extruder(RETRACT as int),
                        }
                    },
                }
            },
        },
    }
}

/// The printing move of angular step `k` of a layer.
#[verifier::opaque]
pub open spec fn spiral_step(m: PrinterModel, job: CylinderJob, k: int) -> Option<PrinterModel> {
    let d = job.diameter as int;
    let s = job.spacing as int;
    let theta = STEP_DEG * k;
    let r = step_radius_of(d, s, theta);
    let m1 = if in_blend(d, s, theta) { m.with_line_width(blend_width_of(d, s, theta)) } else { m };
    match spiral_point(job.start, r as nat, theta as nat, m.position.z as int) {
        None => None,
        Some(p) => {
            let f = m1.feed_to(p);
            if f > i64::MAX {
                None
            } else {
                match job.decay {
                    Some(shape) => m1.extrude_by(p, decayed_feed_of(f, decay_factor_of(r, d, shape))),
                    None => m1.extrude_by(p, f),
                }
            }
        },
    }
}

/// The first `n` angular steps of a layer.
pub open spec fn spiral_steps(m: PrinterModel, job: CylinderJob, n: nat) -> Option<PrinterModel>
    decreases n,
{
    if n == 0 {
        Some(m)
    } else {
        match spiral_steps(m, job, (n - 1) as nat) {
            None => None,
            Some(m1) => spiral_step(m1, job, n - 1),
        }
    }
}

/// Layer `layer` (counted from one): enter it, sweep all steps, then restore
/// the line width it began with and the nominal flow.
#[verifier::opaque]
pub open spec fn cylinder_layer(m: PrinterModel, job: CylinderJob, layer: int) -> Option<PrinterModel> {
    match enter_layer(m, job, layer) {
        None => None,
        Some(m1) => match spiral_steps(m1, job, job.step_count() as nat) {
            None => None,
            Some(m2) => Some(m2.with_line_width(m.line_width).with_flow(FLOW_ONE as int)),
        },
    }
}

/// The first `n` layers of the cylinder.
pub open spec fn cylinder_layers(m: PrinterModel, job: CylinderJob, n: nat) -> Option<PrinterModel>
    decreases n,
{
    if n == 0 {
        Some(m)
    } else {
        match cylinder_layers(m, job, (n - 1) as nat) {
            None => None,
            Some(m1) => cylinder_layer(m1, job, n as int),
        }
    }
}

/// The used radius (nm) of a disc of `diameter` printed at `spacing`.
pub fn used_radius(diameter: u32, spacing: u32) -> (r: i64)
    ensures
        r == used_radius_of(diameter as int, spacing as int),
{
    let d2: i64 = 2 * diameter as i64;
    let s: i64 = spacing as i64;
    if d2 >= s {
        (d2 - s) / 4
    } else {
        proof { lemma_neg_div((s - d2) as int, 4); }
        -((s - d2 + 3) / 4)
    }
}

/// The angle (degrees, rounded down) at which the blend from spiral to circle begins.
pub fn last_full_theta(diameter: u32, spacing: u32) -> (r: u64)
    requires
        0 < spacing <= 2 * diameter,
    ensures
        r == last_full_theta_of(diameter as int, spacing as int),
{
    let n: u64 = 90 * (2 * diameter as u64 - spacing as u64);
    n / spacing as u64
}

/// The largest angle (degrees, rounded down) swept in a layer.
pub fn theta_limit(diameter: u32, spacing: u32) -> (r: u64)
    requires
        spacing > 0,
    ensures
        r == theta_limit_of(diameter as int, spacing as int),
        r <= 90 * (2 * diameter + 3 * spacing),
{
    let n: u64 = 90 * (2 * diameter as u64 + 3 * spacing as u64);
    let r = n / spacing as u64;
    assert(r <= n) by (nonlinear_arith)
        requires r == n as int / spacing as int, spacing >= 1, n >= 0;
    r
}

/// The radius (nm, rounded down) of the pure spiral at `theta` degrees.
pub fn spiral_radius(spacing: u32, theta: u64) -> (r: u128)
    ensures
        r == spiral_radius_of(spacing as int, theta as int),
{
    assert((spacing as int) * (theta as int) <= 0xffff_ffff * 0xffff_ffff_ffff_ffff) by (nonlinear_arith)
        requires spacing <= 0xffff_ffff, theta <= 0xffff_ffff_ffff_ffff;
    spacing as u128 * theta as u128 / 360
}

proof fn lemma_theta_bound(diameter: int, spacing: int, theta: int)
    requires
        spacing > 0,
        0 <= theta <= theta_limit_of(diameter, spacing),
        diameter >= 0,
    ensures
        theta * spacing <= 90 * (2 * diameter + 3 * spacing),
{
    let x = 90 * (2 * diameter + 3 * spacing);
    lemma_fundamental_div_mod(x, spacing);
    lemma_mod_pos_bound(x, spacing);
    assert(theta * spacing <= (x / spacing) * spacing) by (nonlinear_arith)
        requires theta <= x / spacing, spacing > 0;
}

/// Whether `theta` degrees lie in the blend from spiral to circle.
pub fn is_blending(diameter: u32, spacing: u32, theta: u64) -> (r: bool)
    ensures
        r == in_blend(diameter as int, spacing as int, theta as int),
{
    assert((theta as int) * (spacing as int) <= 0xffff_ffff_ffff_ffff * 0xffff_ffff) by (nonlinear_arith)
        requires spacing <= 0xffff_ffff, theta <= 0xffff_ffff_ffff_ffff;
    let a: u128 = theta as u128 * spacing as u128;
    let b: i128 = 90 * (2 * diameter as i128 - spacing as i128);
    a as i128 >= b
}

/// The radius (nm, rounded down) of the path at `theta` degrees.
pub fn step_radius(diameter: u32, spacing: u32, theta: u64) -> (r: u32)
    requires
        0 < spacing < 2 * diameter,
        theta <= theta_limit_of(diameter as int, spacing as int),
    ensures
        r == step_radius_of(diameter as int, spacing as int, theta as int),
        4 * r <= 2 * diameter + spacing,
{
    proof { lemma_theta_bound(diameter as int, spacing as int, theta as int); }
    let st: u64 = theta * spacing as u64;
    let d2s: u64 = 90 * (2 * diameter as u64 - spacing as u64);
    if is_blending(diameter, spacing, theta) {
        let r = (st + d2s) / 720;
        assert(4 * r <= 2 * diameter + spacing) by (nonlinear_arith)
            requires r == (st + d2s) as int / 720, st <= 90 * (2 * diameter + 3 * spacing), d2s == 90 * (2 * diameter - spacing);
        r as u32
    } else {
        let r = st / 360;
        assert(4 * r <= 2 * diameter + spacing) by (nonlinear_arith)
            requires r == st as int / 360, st < d2s, d2s == 90 * (2 * diameter - spacing), spacing > 0;
        r as u32
    }
}

/// The line width (nm, rounded down) at `theta` degrees within the blend.
pub fn blend_width(diameter: u32, spacing: u32, theta: u64) -> (r: u32)
    requires
        0 < spacing < 2 * diameter,
        in_blend(diameter as int, spacing as int, theta as int),
        theta <= theta_limit_of(diameter as int, spacing as int),
    ensures
        r == blend_width_of(diameter as int, spacing as int, theta as int),
        r <= spacing,
{
    proof { lemma_theta_bound(diameter as int, spacing as int, theta as int); }
    let st: u64 = theta * spacing as u64;
    let n: u64 = 90 * (2 * diameter as u64 + 3 * spacing as u64) - st;
    let r = n / 360;
    assert(r <= spacing) by (nonlinear_arith)
        requires r == n as int / 360, n == 90 * (2 * diameter + 3 * spacing) - st, st >= 90 * (2 * diameter - spacing);
    r as u32
}

fn raise(p: Point, dz: i128) -> (r: Option<Point>)
    requires
        -0x1_0000_0000_0000_0000 <= dz <= 0x1_0000_0000_0000_0000,
    ensures
        r == raised(p, dz as int),
{
    let z: i128 = p.z as i128 + dz;
    if z < i32::MIN as i128 || z > i32::MAX as i128 {
        None
    } else {
        Some(Point { z: z as i32, ..p })
    }
}

fn enter_layer_exec(printer: &mut Printer, job: CylinderJob, layer: u64) -> (r: Result<(), GcodeError>)
    requires
        old(printer).wf(),
        layer <= 0xffff_ffff,
    ensures
        final(printer).wf(),
        r is Ok <==> enter_layer(old(printer)@, job, layer as int) is Some,
        r is Ok ==> final(printer)@ == enter_layer(old(printer)@, job, layer as int)->Some_0,
        r is Err ==> r == Err::<(), GcodeError>(GcodeError::OutOfRange),
{
    reveal(enter_layer);
    printer.move_extruder(-RETRACT)?;
    let p1 = match raise(printer.position(), LIFT as i128) {
        Some(p) => p,
        None => return Err(GcodeError::OutOfRange),
    };
    printer.travel_to(p1);
    assert((layer as int) * (job.layer_height as int) <= 0xffff_ffff * 0xffff_ffff) by (nonlinear_arith)
        requires layer <= 0xffff_ffff, job.layer_height <= 0xffff_ffff;
    let dz: i128 = layer as i128 * job.layer_height as i128 - LIFT as i128;
    let p2 = match raise(job.start, dz) {
        Some(p) => p,
        None => return Err(GcodeError::OutOfRange),
    };
    printer.travel_to(p2);
    let p3 = match raise(printer.position(), LIFT as i128) {
        Some(p) => p,
        None => return Err(GcodeError::OutOfRange),
    };
    printer.travel_to(p3);
    printer.move_extruder(RETRACT)
}

fn spiral_point_exec(center: Point, r: u32, theta: u64, z: i32) -> (p: Option<Point>)
    requires
        theta % 5 == 0,
        theta <= 0xffff_ffff_ffff,
    ensures
        p == spiral_point(center, r as nat, theta as nat, z as int),
{
    let dx = scale_unit(r, cos_deg(theta));
    let dy = scale_unit(r, sin_deg(theta));
    let x: i64 = center.x as i64 + dx;
    let y: i64 = center.y as i64 + dy;
    if x < i32::MIN as i64 || x > i32::MAX as i64 || y < i32::MIN as i64 || y > i32::MAX as i64 {
        None
    } else {
        Some(Point { x: x as i32, y: y as i32, z })
    }
}

fn spiral_step_exec(printer: &mut Printer, job: CylinderJob, k: u64) -> (r: Result<(), GcodeError>)
    requires
        old(printer).wf(),
        job.valid(),
        STEP_DEG * k <= theta_limit_of(job.diameter as int, job.spacing as int),
    ensures
        final(printer).wf(),
        r is Ok <==> spiral_step(old(printer)@, job, k as int) is Some,
        r is Ok ==> final(printer)@ == spiral_step(old(printer)@, job, k as int)->Some_0,
        r is Err ==> r == Err::<(), GcodeError>(GcodeError::OutOfRange),
{
    reveal(spiral_step);
    let theta: u64 = STEP_DEG * k;
    proof {
        lemma_theta_bound(job.diameter as int, job.spacing as int, theta as int);
        assert(theta <= 0xffff_ffff_ffff) by (nonlinear_arith)
            requires theta * job.spacing <= 90 * (2 * job.diameter + 3 * job.spacing), job.spacing >= 1,
                job.diameter <= 0xffff_ffff, job.spacing <= 0xffff_ffff, theta >= 0;
    }
    let r = step_radius(job.diameter, job.spacing, theta);
    let z = printer.position().z;
    if is_blending(job.diameter, job.spacing, theta) {
        let w = blend_width(job.diameter, job.spacing, theta);
        printer.set_line_width(w);
    }
    let p = match spiral_point_exec(job.start, r, theta, z) {
        Some(p) => p,
        None => return Err(GcodeError::OutOfRange),
    };
    match job.decay {
        Some(shape) => {
            let f = printer.get_extrude_dist(p)?;
            let factor = decay_factor(r, job.diameter, shape);
            let amount = decayed_feed(f, factor);
            printer.extrude_with_explicit_flow(p, amount)
        },
        None => printer.extrude_to(p),
    }
}

proof fn lemma_steps_stay_none(m: PrinterModel, job: CylinderJob, a: nat, b: nat)
    requires
        a <= b,
        spiral_steps(m, job, a) is None,
    ensures
        spiral_steps(m, job, b) is None,
    decreases b,
{
    if a < b {
        lemma_steps_stay_none(m, job, a, (b - 1) as nat);
    }
}

proof fn lemma_layers_stay_none(m: PrinterModel, job: CylinderJob, a: nat, b: nat)
    requires
        a <= b,
        cylinder_layers(m, job, a) is None,
    ensures
        cylinder_layers(m, job, b) is None,
    decreases b,
{
    if a < b {
        lemma_layers_stay_none(m, job, a, (b - 1) as nat);
    }
}

fn cylinder_layer_exec(printer: &mut Printer, job: CylinderJob, layer: u64) -> (r: Result<(), GcodeError>)
    requires
        old(printer).wf(),
        job.valid(),
        layer <= 0xffff_ffff,
    ensures
        final(printer).wf(),
        r is Ok <==> cylinder_layer(old(printer)@, job, layer as int) is Some,
        r is Ok ==> final(printer)@ == cylinder_layer(old(printer)@, job, layer as int)->Some_0,
        r is Err ==> r == Err::<(), GcodeError>(GcodeError::OutOfRange),
{
    reveal(cylinder_layer);
    let ghost m0 = printer@;
    let w0 = printer.line_width();
    enter_layer_exec(printer, job, layer)?;
    let ghost m1 = printer@;
    let limit = theta_limit(job.diameter, job.spacing);
    let steps: u64 = limit / STEP_DEG + 1;
    let mut k: u64 = 0;
    while k < steps
        invariant
            printer.wf(),
            job.valid(),
            limit == theta_limit_of(job.diameter as int, job.spacing as int),
            steps == job.step_count(),
            k <= steps,
            spiral_steps(m1, job, k as nat) == Some(printer@),
            m0 == old(printer)@,
            enter_layer(m0, job, layer as int) == Some(m1),
            w0 == m0.line_width,
        decreases steps - k,
    {
        assert(STEP_DEG * k <= limit) by (nonlinear_arith)
            requires k < steps, steps == limit / 5 + 1, STEP_DEG == 5;
        let ghost before = printer@;
        let step = spiral_step_exec(printer, job, k);
        if step.is_err() {
            proof {
                assert(spiral_steps(m1, job, (k + 1) as nat) is None);
                lemma_steps_stay_none(m1, job, (k + 1) as nat, steps as nat);
                reveal(cylinder_layer);
            }
            return Err(GcodeError::OutOfRange);
        }
        k = k + 1;
    }
    printer.set_line_width(w0);
    printer.set_flow_multiplier(FLOW_ONE);
    Ok(())
}

/// Prints a spiral-wound cylinder of `diameter` and `height` whose axis stands
/// at `starting_location`, with lines `spacing` apart and layers `layer_height`
/// apart (all nm), tapering the flow near the rim by `decay` where given.
///
/// Each of the `height / layer_height` layers retracts, lifts, moves above its
/// start, lowers onto it and re-primes; then sweeps from the centre outward in
/// five-degree steps along the spiral blended into a circle; then restores the
/// line width it began with and the nominal flow multiplier.
///
/// A zero diameter, height, spacing or layer height, a spacing of at least twice
/// the diameter, or a taper with a zero term is refused before anything is
/// emitted. Where a point or the feed position would leave the machine's
/// registers, the run stops with `OutOfRange`.
pub fn print_cylinder(printer: &mut Printer, diameter: u32, height: u32, starting_location: Point, spacing: u32, layer_height: u32, decay: Option<DecayShape>) -> (r: Result<(), GcodeError>)
    requires
        old(printer).wf(),
    ensures
        final(printer).wf(),
        !(CylinderJob { diameter, height, start: starting_location, spacing, layer_height, decay }).valid()
            ==> r == Err::<(), GcodeError>(GcodeError::InvalidConfiguration) && final(printer)@ == old(printer)@,
        (CylinderJob { diameter, height, start: starting_location, spacing, layer_height, decay }).valid() ==> {
            let job = CylinderJob { diameter, height, start: starting_location, spacing, layer_height, decay };
            let out = cylinder_layers(old(printer)@, job, job.layer_count() as nat);
            &&& r is Ok <==> out is Some
            &&& r is Ok ==> final(printer)@ == out->Some_0
            &&& r is Err ==> r == Err::<(), GcodeError>(GcodeError::OutOfRange)
        },
{
    let shape_ok = match decay {
        Some(shape) => shape.num > 0 && shape.den > 0,
        None => true,
    };
    if diameter == 0 || height == 0 || spacing == 0 || layer_height == 0 || spacing as u64 >= 2 * diameter as u64 || !shape_ok {
        return Err(GcodeError::InvalidConfiguration);
    }
    let job = CylinderJob { diameter, height, start: starting_location, spacing, layer_height, decay };
    let ghost m0 = printer@;
    let n: u64 = (height / layer_height) as u64;
    let mut layer: u64 = 0;
    while layer < n
        invariant
            printer.wf(),
            job.valid(),
            n == job.layer_count(),
            n <= 0xffff_ffff,
            layer <= n,
            cylinder_layers(m0, job, layer as nat) == Some(printer@),
            m0 == old(printer)@,
            job == (CylinderJob { diameter, height, start: starting_location, spacing, layer_height, decay }),
        decreases n - layer,
    {
        let step = cylinder_layer_exec(printer, job, layer + 1);
        if step.is_err() {
            proof {
                assert(cylinder_layers(m0, job, (layer + 1) as nat) is None);
                lemma_layers_stay_none(m0, job, (layer + 1) as nat, n as nat);
            }
            return Err(GcodeError::OutOfRange);
        }
        layer = layer + 1;
    }
    Ok(())
}

proof fn lemma_enter_layer_len(m: PrinterModel, job: CylinderJob, layer: int)
    requires
        enter_layer(m, job, layer) is Some,
    ensures
        enter_layer(m, job, layer)->Some_0.cache.len() == m.cache.len() + 5,
{
    reveal(enter_layer);
}

proof fn lemma_spiral_steps_len(m: PrinterModel, job: CylinderJob, n: nat)
    requires
        spiral_steps(m, job, n) is Some,
    ensures
        spiral_steps(m, job, n)->Some_0.cache.len() == m.cache.len() + n,
    decreases n,
{
    reveal(spiral_step);
    if n > 0 {
        lemma_spiral_steps_len(m, job, (n - 1) as nat);
    }
}

/// A run of `n` layers emits exactly `n` blocks of commands, each of five
/// commands that enter the layer and one printing move per angular step.
pub proof fn cylinder_emits_layers(m: PrinterModel, job: CylinderJob, n: nat)
    requires
        job.valid(),
        cylinder_layers(m, job, n) is Some,
    ensures
        cylinder_layers(m, job, n)->Some_0.cache.len() == m.cache.len() + n * (5 + job.step_count()),
    decreases n,
{
    if n > 0 {
        let prev = cylinder_layers(m, job, (n - 1) as nat);
        cylinder_emits_layers(m, job, (n - 1) as nat);
        let m1 = prev->Some_0;
        reveal(cylinder_layer);
        lemma_enter_layer_len(m1, job, n as int);
        let m2 = enter_layer(m1, job, n as int)->Some_0;
        lemma_spiral_steps_len(m2, job, job.step_count() as nat);
        assert(theta_limit_of(job.diameter as int, job.spacing as int) >= 0) by (nonlinear_arith)
            requires job.spacing > 0, job.diameter >= 0;
        let k = (n - 1) as nat;
        assert(n * (5 + job.step_count()) == k * (5 + job.step_count()) + 5 + job.step_count()) by (nonlinear_arith)
            requires k == n - 1;
    } else {
        assert(n * (5 + job.step_count()) == 0) by (nonlinear_arith)
            requires n == 0;
    }
}

proof fn lemma_enter_layer_height(m: PrinterModel, job: CylinderJob, layer: int)
    requires
        enter_layer(m, job, layer) is Some,
    ensures
        enter_layer(m, job, layer)->Some_0.position.z == job.start.z + layer * job.layer_height,
{
    reveal(enter_layer);
}

proof fn lemma_spiral_steps_height(m: PrinterModel, job: CylinderJob, n: nat)
    requires
        spiral_steps(m, job, n) is Some,
    ensures
        spiral_steps(m, job, n)->Some_0.position.z == m.position.z,
    decreases n,
{
    reveal(spiral_step);
    if n > 0 {
        lemma_spiral_steps_height(m, job, (n - 1) as nat);
    }
}

/// Each layer is printed one layer height above the previous one: after `n`
/// layers the tool stands at `n` layer heights above the start.
pub proof fn cylinder_rises_by_layer(m: PrinterModel, job: CylinderJob, n: nat)
    requires
        n >= 1,
        cylinder_layers(m, job, n) is Some,
    ensures
        cylinder_layers(m, job, n)->Some_0.position.z == job.start.z + n * job.layer_height,
{
    reveal(cylinder_layer);
    let m1 = cylinder_layers(m, job, (n - 1) as nat)->Some_0;
    lemma_enter_layer_height(m1, job, n as int);
    let m2 = enter_layer(m1, job, n as int)->Some_0;
    lemma_spiral_steps_height(m2, job, job.step_count() as nat);
}

/// A whole cylinder printed from one state always gives the same commands and
/// end state: the run depends on nothing but the printer's state and the job.
pub proof fn cylinder_is_deterministic(m1: PrinterModel, m2: PrinterModel, job: CylinderJob)
    requires
        m1 == m2,
    ensures
        cylinder_layers(m1, job, job.layer_count() as nat) == cylinder_layers(m2, job, job.layer_count() as nat),
{
}

} // verus!
