use vstd::prelude::*;

use crate::error::GcodeError;
use crate::extrusion::{ExtrusionRatio, feed_length, ratio_num, PI_NUM, FLOW_ONE};
use crate::geometry::{Point, distance, point_distance};

verus! {

/// The feedrate (mm/min) of a move of the extruder alone.
pub const EXTRUDER_FEEDRATE: i32 = 300;

/// One instruction for the motion controller. Lengths are in nanometres,
/// feedrates in mm/min, temperatures in whole degrees Celsius.
#[derive(Clone, Debug, PartialEq, Eq)]
pub enum Command {
    /// A rapid move without extrusion.
    Travel { to: Point, feedrate: i32 },
    /// A coordinated move that brings the extruder to the absolute feed position `feed`.
    Extrude { to: Point, feed: i64, feedrate: i32 },
    /// A move of the extruder alone to the absolute feed position `feed`.
    MoveExtruder { feed: i64, feedrate: i32 },
    /// Renumbers the current feed position as `value`.
    SetAbsoluteFeed { value: i64 },
    Comment { text: String },
    SetBedTemp { celsius: u32, wait: bool },
    SetHotendTemp { celsius: u32, wait: bool },
    /// Part-cooling fan duty, 0 to 255.
    SetFan { duty: u8 },
    Home,
    AbsoluteExtrusion,
    LevelBed,
}

/// What a `Printer` is: where the tool stands, the feed position, the
/// motion parameters, and the commands emitted and not yet handed on.
pub struct PrinterModel {
    pub position: Point,
    pub extruder: int,
    pub travel_feedrate: i32,
    pub print_feedrate: i32,
    pub layer_height: int,
    pub line_width: int,
    pub filament_diameter: int,
    pub flow_multiplier: int,
    pub cache: Seq<Command>,
}

/// Whether an integer is a feed position that the machine's register holds.
pub open spec fn feed_fits(v: int) -> bool {
    i64::MIN <= v <= i64::MAX
}

impl PrinterModel {
    /// The feed that a move from the current position to `to` needs at the current parameters.
    pub open spec fn feed_to(self, to: Point) -> int {
        feed_length(distance(self.position, to) as int, self.layer_height, self.line_width, self.filament_diameter, self.flow_multiplier)
    }

    pub open spec fn travel(self, to: Point) -> PrinterModel {
        PrinterModel {
            position: to,
            cache: self.cache.push(Command::Travel { to, feedrate: self.travel_feedrate }),
            ..self
        }
    }

    /// A printing move to `to` that adds `amount` to the feed position, if the sum fits.
    pub open spec fn extrude_by(self, to: Point, amount: int) -> Option<PrinterModel> {
        let e = self.extruder + amount;
        if feed_fits(e) {
            Some(PrinterModel {
                position: to,
                extruder: e,
                cache: self.cache.push(Command::Extrude { to, feed: e as i64, feedrate: self.print_feedrate }),
                ..self
            })
        } else {
            None
        }
    }

    /// A printing move to `to` with the feed that the extrusion model gives.
    pub open spec fn extrude(self, to: Point) -> Option<PrinterModel> {
        self.extrude_by(to, self.feed_to(to))
    }

    /// A move of the extruder alone by `amount`, if the new feed position fits.
    pub open spec fn move_extruder(self, amount: int) -> Option<PrinterModel> {
        let e = self.extruder + amount;
        if feed_fits(e) {
            Some(PrinterModel {
                extruder: e,
                cache: self.cache.push(Command::MoveExtruder { feed: e as i64, feedrate: EXTRUDER_FEEDRATE }),
                ..self
            })
        } else {
            None
        }
    }

    pub open spec fn with_line_width(self, w: int) -> PrinterModel {
        PrinterModel { line_width: w, ..self }
    }

    pub open spec fn with_flow(self, f: int) -> PrinterModel {
        PrinterModel { flow_multiplier: f, ..self }
    }
}

/// The fan duty (0 to 255) for a speed in thousandths of full speed,
/// clamped to full speed and rounded to the nearest step.
pub open spec fn fan_duty(speed: int) -> int {
    let s = if speed > 1000 { 1000 } else { speed };
    (s * 255 + 500) / 1000
}

/// The motion and extrusion state of one print job, and the commands it has emitted.
pub struct Printer {
    pub position: Point,
    pub extruder: i64,
    travel_feedrate: i32,
    print_feedrate: i32,
    layer_height: u32,
    line_width: u32,
    filament_diameter: u32,
    flow_multiplier: u16,
    extrude_ratio: ExtrusionRatio,
    cache: Vec<Command>,
}

impl View for Printer {
    type V = PrinterModel;

    closed spec fn view(&self) -> PrinterModel {
        PrinterModel {
            position: self.position,
            extruder: self.extruder as int,
            travel_feedrate: self.travel_feedrate,
            print_feedrate: self.print_feedrate,
            layer_height: self.layer_height as int,
            line_width: self.line_width as int,
            filament_diameter: self.filament_diameter as int,
            flow_multiplier: self.flow_multiplier as int,
            cache: self.cache@,
        }
    }
}

impl Printer {
    /// The cached extrusion ratio is the one for the current layer height,
    /// line width and filament diameter, and that diameter is positive.
    pub closed spec fn wf(&self) -> bool {
        &&& self.filament_diameter > 0
        &&& self.extrude_ratio.is_for(self.layer_height as int, self.line_width as int, self.filament_diameter as int)
    }

    proof fn lemma_bounds(&self)
        requires
            self.wf(),
        ensures
            self.extrude_ratio.wf(),
    {
        let fd = self.filament_diameter as int;
        assert(0 < PI_NUM * fd * fd <= PI_NUM * 0xffff_ffff * 0xffff_ffff) by (nonlinear_arith)
            requires 0 < fd <= 0xffff_ffff, PI_NUM == 355;
    }

    /// A printer at the origin with zero feed and no commands emitted.
    /// A zero filament diameter is refused.
    pub fn new(travel_feedrate: i32, print_feedrate: i32, layer_height: u32, line_width: u32, filament_diameter: u32, flow_multiplier: u16) -> (r: Result<Printer, GcodeError>)
        ensures
            r is Err <==> filament_diameter == 0,
            r matches Err(e) ==> e == GcodeError::InvalidConfiguration,
            r matches Ok(p) ==> p.wf() && p@ == (PrinterModel {
                position: Point { x: 0, y: 0, z: 0 },
                extruder: 0,
                travel_feedrate,
                print_feedrate,
                layer_height: layer_height as int,
                line_width: line_width as int,
                filament_diameter: filament_diameter as int,
                flow_multiplier: flow_multiplier as int,
                cache: Seq::empty(),
            }),
    {
        if filament_diameter == 0 {
            return Err(GcodeError::InvalidConfiguration);
        }
        let p = Printer {
            position: Point::origin(),
            extruder: 0,
            travel_feedrate,
            print_feedrate,
            layer_height,
            line_width,
            filament_diameter,
            flow_multiplier,
            extrude_ratio: ExtrusionRatio::new(layer_height, line_width, filament_diameter),
            cache: Vec::new(),
        };
        assert(p@.cache =~= Seq::<Command>::empty());
        Ok(p)
    }

    pub fn position(&self) -> (r: Point)
        ensures
            r == self@.position,
    {
        self.position
    }

    pub fn extruder(&self) -> (r: i64)
        ensures
            r == self@.extruder,
    {
        self.extruder
    }

    pub fn layer_height(&self) -> (r: u32)
        ensures
            r == self@.layer_height,
    {
        self.layer_height
    }

    pub fn line_width(&self) -> (r: u32)
        ensures
            r == self@.line_width,
    {
        self.line_width
    }

    pub fn flow_multiplier(&self) -> (r: u16)
        ensures
            r == self@.flow_multiplier,
    {
        self.flow_multiplier
    }

    /// The commands emitted since the cache was last handed on.
    pub fn commands(&self) -> (r: &Vec<Command>)
        ensures
            r@ == self@.cache,
    {
        &self.cache
    }

    fn emit(&mut self, c: Command)
        ensures
            final(self)@ == (PrinterModel { cache: old(self)@.cache.push(c), ..old(self)@ }),
            final(self).wf() == old(self).wf(),
    {
        self.cache.push(c);
    }

    /// Emits a comment line.
    pub fn comment(&mut self, text: &str)
        ensures
            final(self)@ == (PrinterModel { cache: final(self)@.cache, ..old(self)@ }),
            final(self)@.cache.len() == old(self)@.cache.len() + 1,
            final(self)@.cache.drop_last() == old(self)@.cache,
            final(self)@.cache.last() matches Command::Comment { text: t } && t@ == text@,
            final(self).wf() == old(self).wf(),
    {
        self.emit(Command::Comment { text: text.to_string() });
    }

    /// Sets the bed temperature, waiting for it to be reached where `wait` holds.
    pub fn set_bed_temp(&mut self, celsius: u32, wait: bool)
        ensures
            final(self)@ == (PrinterModel { cache: old(self)@.cache.push(Command::SetBedTemp { celsius, wait }), ..old(self)@ }),
            final(self).wf() == old(self).wf(),
    {
        self.emit(Command::SetBedTemp { celsius, wait });
    }

    /// Sets the hot-end temperature, waiting for it to be reached where `wait` holds.
    pub fn set_hotend_temp(&mut self, celsius: u32, wait: bool)
        ensures
            final(self)@ == (PrinterModel { cache: old(self)@.cache.push(Command::SetHotendTemp { celsius, wait }), ..old(self)@ }),
            final(self).wf() == old(self).wf(),
    {
        self.emit(Command::SetHotendTemp { celsius, wait });
    }

    /// Sets the fan to `speed` thousandths of full speed; more than full speed is full speed.
    pub fn set_fan(&mut self, speed: u32)
        ensures
            final(self)@ == (PrinterModel { cache: old(self)@.cache.push(Command::SetFan { duty: fan_duty(speed as int) as u8 }), ..old(self)@ }),
            final(self).wf() == old(self).wf(),
    {
        let s: u32 = if speed > 1000 { 1000 } else { speed };
        let duty: u32 = (s * 255 + 500) / 1000;
        self.emit(Command::SetFan { duty: duty as u8 });
    }

    /// Homes all axes; the tool is then at the origin.
    pub fn home(&mut self)
        ensures
            final(self)@ == (PrinterModel { position: Point { x: 0, y: 0, z: 0 }, cache: old(self)@.cache.push(Command::Home), ..old(self)@ }),
            final(self).wf() == old(self).wf(),
    {
        self.emit(Command::Home);
        self.position = Point::origin();
    }

    /// Switches the controller to absolute feed positions.
    pub fn absolute_extrusion(&mut self)
        ensures
            final(self)@ == (PrinterModel { cache: old(self)@.cache.push(Command::AbsoluteExtrusion), ..old(self)@ }),
            final(self).wf() == old(self).wf(),
    {
        self.emit(Command::AbsoluteExtrusion);
    }

    /// Probes the bed to level it.
    pub fn level_bed(&mut self)
        ensures
            final(self)@ == (PrinterModel { cache: old(self)@.cache.push(Command::LevelBed), ..old(self)@ }),
            final(self).wf() == old(self).wf(),
    {
        self.emit(Command::LevelBed);
    }

    /// Renumbers the current feed position as `extrusion`.
    pub fn set_extrusion(&mut self, extrusion: i64)
        ensures
            final(self)@ == (PrinterModel { extruder: extrusion as int, cache: old(self)@.cache.push(Command::SetAbsoluteFeed { value: extrusion }), ..old(self)@ }),
            final(self).wf() == old(self).wf(),
    {
        self.emit(Command::SetAbsoluteFeed { value: extrusion });
        self.extruder = extrusion;
    }

    /// A rapid move to `point` without extrusion.
    pub fn travel_to(&mut self, point: Point)
        ensures
            final(self)@ == old(self)@.travel(point),
            final(self).wf() == old(self).wf(),
    {
        let c = Command::Travel { to: point, feedrate: self.travel_feedrate };
        self.emit(c);
        self.position = point;
    }

    pub fn set_travel_feedrate(&mut self, travel_feedrate: i32)
        ensures
            final(self)@ == (PrinterModel { travel_feedrate, ..old(self)@ }),
            final(self).wf() == old(self).wf(),
    {
        self.travel_feedrate = travel_feedrate;
    }

    pub fn set_print_feedrate(&mut self, print_feedrate: i32)
        ensures
            final(self)@ == (PrinterModel { print_feedrate, ..old(self)@ }),
            final(self).wf() == old(self).wf(),
    {
        self.print_feedrate = print_feedrate;
    }

    /// The feed that a printing move from the current position to `point`
    /// needs, or `OutOfRange` where it exceeds the feed register.
    pub fn get_extrude_dist(&self, point: Point) -> (r: Result<i64, GcodeError>)
        requires
            self.wf(),
        ensures
            r is Ok <==> self@.feed_to(point) <= i64::MAX,
            r matches Ok(f) ==> f == self@.feed_to(point) && f >= 0,
            r matches Err(e) ==> e == GcodeError::OutOfRange,
    {
        proof { self.lemma_bounds(); }
        let d = point_distance(self.position, point);
        let ghost n = ratio_num(self.layer_height as int, self.line_width as int);
        assert(0 <= n <= 452 * 0xffff_ffff * 0xffff_ffff) by (nonlinear_arith)
            requires n == 4 * 113 * (self.layer_height as int) * (self.line_width as int), self.layer_height <= 0xffff_ffff, self.line_width <= 0xffff_ffff;
        assert((d as int) * (self.flow_multiplier as int) * n <= u128::MAX) by (nonlinear_arith)
            requires d < 0x2_0000_0000, self.flow_multiplier <= 0xffff, 0 <= n <= 452 * 0xffff_ffff * 0xffff_ffff, d >= 0;
        match self.extrude_ratio.feed(d, self.flow_multiplier) {
            Ok(f) => {
                if f > i64::MAX as u128 {
                    Err(GcodeError::OutOfRange)
                } else {
                    Ok(f as i64)
                }
            },
            Err(e) => Err(e),
        }
    }

    /// A printing move to `point` with the feed that the extrusion model gives.
    /// Where the new feed position would leave the register, nothing changes.
    pub fn extrude_to(&mut self, point: Point) -> (r: Result<(), GcodeError>)
        requires
            old(self).wf(),
        ensures
            final(self).wf(),
            r is Ok <==> old(self)@.feed_to(point) <= i64::MAX && old(self)@.extrude(point) is Some,
            r is Ok ==> final(self)@ == old(self)@.extrude(point)->Some_0,
            r matches Err(e) ==> e == GcodeError::OutOfRange && final(self)@ == old(self)@,
    {
        let f = self.get_extrude_dist(point)?;
        self.extrude_with_explicit_flow(point, f)
    }

    /// A printing move to `point` that adds `flow_dist` to the feed position.
    /// Where the new feed position would leave the register, nothing changes.
    pub fn extrude_with_explicit_flow(&mut self, point: Point, flow_dist: i64) -> (r: Result<(), GcodeError>)
        requires
            old(self).wf(),
        ensures
            final(self).wf(),
            r is Ok <==> old(self)@.extrude_by(point, flow_dist as int) is Some,
            r is Ok ==> final(self)@ == old(self)@.extrude_by(point, flow_dist as int)->Some_0,
            r matches Err(e) ==> e == GcodeError::OutOfRange && final(self)@ == old(self)@,
    {
        let e: i128 = self.extruder as i128 + flow_dist as i128;
        if e < i64::MIN as i128 || e > i64::MAX as i128 {
            return Err(GcodeError::OutOfRange);
        }
        self.extruder = e as i64;
        let c = Command::Extrude { to: point, feed: e as i64, feedrate: self.print_feedrate };
        self.emit(c);
        self.position = point;
        Ok(())
    }

    /// Moves the extruder alone by `dist` (negative to retract).
    /// Where the new feed position would leave the register, nothing changes.
    pub fn move_extruder(&mut self, dist: i64) -> (r: Result<(), GcodeError>)
        requires
            old(self).wf(),
        ensures
            final(self).wf(),
            r is Ok <==> old(self)@.move_extruder(dist as int) is Some,
            r is Ok ==> final(self)@ == old(self)@.move_extruder(dist as int)->Some_0,
            r matches Err(e) ==> e == GcodeError::OutOfRange && final(self)@ == old(self)@,
    {
        let e: i128 = self.extruder as i128 + dist as i128;
        if e < i64::MIN as i128 || e > i64::MAX as i128 {
            return Err(GcodeError::OutOfRange);
        }
        self.extruder = e as i64;
        self.emit(Command::MoveExtruder { feed: e as i64, feedrate: EXTRUDER_FEEDRATE });
        Ok(())
    }

    /// Sets the layer height and recomputes the extrusion ratio.
    pub fn set_layer_height(&mut self, layer_height: u32)
        requires
            old(self).wf(),
        ensures
            final(self).wf(),
            final(self)@ == (PrinterModel { layer_height: layer_height as int, ..old(self)@ }),
    {
        self.layer_height = layer_height;
        self.extrude_ratio = ExtrusionRatio::new(self.layer_height, self.line_width, self.filament_diameter);
    }

    /// Sets the line width and recomputes the extrusion ratio.
    pub fn set_line_width(&mut self, line_width: u32)
        requires
            old(self).wf(),
        ensures
            final(self).wf(),
            final(self)@ == old(self)@.with_line_width(line_width as int),
    {
        self.line_width = line_width;
        self.extrude_ratio = ExtrusionRatio::new(self.layer_height, self.line_width, self.filament_diameter);
    }

    /// Sets the flow multiplier (thousandths); the extrusion ratio does not depend on it.
    pub fn set_flow_multiplier(&mut self, flow_multiplier: u16)
        ensures
            final(self).wf() == old(self).wf(),
            final(self)@ == old(self)@.with_flow(flow_multiplier as int),
    {
        self.flow_multiplier = flow_multiplier;
    }

    /// Hands the emitted commands on to `sink`, in order, and empties the cache.
    pub fn write_cache(&mut self, sink: &mut Vec<Command>)
        ensures
            final(self).wf() == old(self).wf(),
            final(sink)@ == old(sink)@ + old(self)@.cache,
            final(self)@ == (PrinterModel { cache: Seq::empty(), ..old(self)@ }),
    {
        sink.append(&mut self.cache);
        assert(self@.cache =~= Seq::<Command>::empty());
    }
}

} // verus!
