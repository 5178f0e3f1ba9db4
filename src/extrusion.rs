use vstd::prelude::*;
use vstd::arithmetic::div_mod::*;

use crate::error::GcodeError;

verus! {

/// The flow multiplier that leaves the computed feed unchanged (1.0).
pub const FLOW_ONE: u16 = 1000;

/// Numerator of the rational approximation 355/113 of pi.
pub const PI_NUM: u128 = 355;

/// Denominator of the rational approximation 355/113 of pi.
pub const PI_DEN: u128 = 113;

/// Numerator of the extrusion ratio `(lh * lw) / (pi * (fd / 2)^2)`:
/// the deposited cross-section scaled by `4 * PI_DEN`.
pub open spec fn ratio_num(layer_height: int, line_width: int) -> int {
    4 * PI_DEN * layer_height * line_width
}

/// Denominator of the extrusion ratio: the filament cross-section scaled by `4 * PI_DEN`.
pub open spec fn ratio_den(filament_diameter: int) -> int {
    PI_NUM * filament_diameter * filament_diameter
}

/// The numerator of the feed before division.
pub open spec fn feed_numerator(distance: int, layer_height: int, line_width: int, flow: int) -> int {
    distance * flow * ratio_num(layer_height, line_width)
}

/// The feed length (nm) that deposits a bead of `layer_height` by `line_width`
/// along `distance`, from filament of `filament_diameter`, at `flow / FLOW_ONE`
/// times the nominal flow:
/// `distance * (lh * lw) / (pi * (fd / 2)^2) * flow / FLOW_ONE`, rounded down.
pub open spec fn feed_length(distance: int, layer_height: int, line_width: int, filament_diameter: int, flow: int) -> int {
    feed_numerator(distance, layer_height, line_width, flow) / (ratio_den(filament_diameter) * FLOW_ONE)
}

/// The extrusion ratio, held as an exact fraction.
#[derive(Clone, Copy, Debug, PartialEq, Eq, Structural)]
pub struct ExtrusionRatio {
    pub num: u128,
    pub den: u128,
}

impl ExtrusionRatio {
    /// The ratio is the one for these bead and filament dimensions.
    pub open spec fn is_for(self, layer_height: int, line_width: int, filament_diameter: int) -> bool {
        &&& self.num == ratio_num(layer_height, line_width)
        &&& self.den == ratio_den(filament_diameter)
    }

    /// The ratio for a bead of `layer_height` by `line_width` from filament of `filament_diameter`.
    pub fn new(layer_height: u32, line_width: u32, filament_diameter: u32) -> (r: ExtrusionRatio)
        ensures
            r.is_for(layer_height as int, line_width as int, filament_diameter as int),
    {
        assert((layer_height as int) * (line_width as int) <= 0xffff_ffff * 0xffff_ffff) by (nonlinear_arith)
            requires layer_height <= 0xffff_ffff, line_width <= 0xffff_ffff;
        assert((filament_diameter as int) * (filament_diameter as int) <= 0xffff_ffff * 0xffff_ffff) by (nonlinear_arith)
            requires filament_diameter <= 0xffff_ffff;
        let area: u128 = layer_height as u128 * line_width as u128;
        let fd2: u128 = filament_diameter as u128 * filament_diameter as u128;
        assert(4 * PI_DEN * area <= u128::MAX && PI_NUM * fd2 <= u128::MAX) by (nonlinear_arith)
            requires area <= 0xffff_ffff * 0xffff_ffff, fd2 <= 0xffff_ffff * 0xffff_ffff, PI_DEN == 113, PI_NUM == 355;
        let r = ExtrusionRatio { num: 4 * PI_DEN * area, den: PI_NUM * fd2 };
        assert(r.num == ratio_num(layer_height as int, line_width as int)) by (nonlinear_arith)
            requires r.num == 4 * 113 * area, area == (layer_height as int) * (line_width as int), PI_DEN == 113;
        assert(r.den == ratio_den(filament_diameter as int)) by (nonlinear_arith)
            requires r.den == 355 * fd2, fd2 == (filament_diameter as int) * (filament_diameter as int), PI_NUM == 355;
        r
    }

    /// The ratio's denominator is that of some filament diameter that a `u32` holds.
    pub open spec fn wf(self) -> bool {
        0 < self.den <= PI_NUM * 0xffff_ffff * 0xffff_ffff
    }

    /// The feed for `distance` at `flow`, or `OutOfRange` where the product of
    /// distance, flow and ratio numerator exceeds 128 bits.
    pub fn feed(self, distance: u64, flow: u16) -> (r: Result<u128, GcodeError>)
        requires
            self.wf(),
        ensures
            r is Ok <==> (distance as int) * (flow as int) * (self.num as int) <= u128::MAX,
            r matches Ok(f) ==> f == (distance as int) * (flow as int) * (self.num as int) / ((self.den as int) * FLOW_ONE),
            r matches Err(e) ==> e == GcodeError::OutOfRange,
    {
        assert((distance as int) * (flow as int) <= 0xffff_ffff_ffff_ffff * 0xffff) by (nonlinear_arith)
            requires distance <= 0xffff_ffff_ffff_ffff, flow <= 0xffff;
        let df: u128 = distance as u128 * flow as u128;
        match df.checked_mul(self.num) {
            Some(n) => Ok(n / (self.den * FLOW_ONE as u128)),
            None => Err(GcodeError::OutOfRange),
        }
    }
}

/// The feed length that `travel_distance` needs at the given bead and filament
/// dimensions and flow multiplier (all lengths in nm, flow in thousandths).
/// A zero filament diameter is a configuration error; a product beyond 128 bits
/// is out of range.
pub fn required_feed(travel_distance: u64, layer_height: u32, line_width: u32, filament_diameter: u32, flow_multiplier: u16) -> (r: Result<u128, GcodeError>)
    ensures
        r == Err::<u128, GcodeError>(GcodeError::InvalidConfiguration) <==> filament_diameter == 0,
        filament_diameter > 0 ==> (r is Ok <==> feed_numerator(travel_distance as int, layer_height as int, line_width as int, flow_multiplier as int) <= u128::MAX),
        r matches Ok(f) ==> f == feed_length(travel_distance as int, layer_height as int, line_width as int, filament_diameter as int, flow_multiplier as int),
        filament_diameter > 0 && r is Err ==> r == Err::<u128, GcodeError>(GcodeError::OutOfRange),
{
    if filament_diameter == 0 {
        return Err(GcodeError::InvalidConfiguration);
    }
    let ratio = ExtrusionRatio::new(layer_height, line_width, filament_diameter);
    proof { lemma_ratio_wf(filament_diameter as int); }
    ratio.feed(travel_distance, flow_multiplier)
}

proof fn lemma_ratio_wf(fd: int)
    requires
        0 < fd <= 0xffff_ffff,
    ensures
        0 < ratio_den(fd) <= PI_NUM * 0xffff_ffff * 0xffff_ffff,
{
    assert(0 < PI_NUM * fd * fd <= PI_NUM * 0xffff_ffff * 0xffff_ffff) by (nonlinear_arith)
        requires 0 < fd <= 0xffff_ffff, PI_NUM == 355;
}

/// Scaling a non-negative quantity by `k` before rounding down differs from
/// scaling it after by less than `k`.
proof fn lemma_floor_div_scale(x: int, den: int, k: int)
    requires
        x >= 0,
        den > 0,
        k >= 1,
    ensures
        k * (x / den) <= (k * x) / den < k * (x / den) + k,
{
    let q = x / den;
    let m = x % den;
    lemma_fundamental_div_mod(x, den);
    lemma_mod_pos_bound(x, den);
    let t = (k * m) / den;
    let u = (k * m) % den;
    assert(k * m >= 0) by (nonlinear_arith)
        requires k >= 1, m >= 0;
    lemma_fundamental_div_mod(k * m, den);
    lemma_mod_pos_bound(k * m, den);
    assert(k * x == (k * q + t) * den + u) by (nonlinear_arith)
        requires x == den * q + m, k * m == den * t + u;
    lemma_fundamental_div_mod_converse(k * x, den, k * q + t, u);
    assert(0 <= t < k) by (nonlinear_arith)
        requires k * m == den * t + u, 0 <= u < den, 0 <= m < den, k >= 1, k * m >= 0;
}

/// Feed is linear in travel distance: `k` times the distance needs `k` times
/// the feed, up to the rounding of each to a whole nanometre.
pub proof fn feed_scales_with_distance(k: nat, distance: nat, layer_height: nat, line_width: nat, filament_diameter: nat, flow: nat)
    requires
        k >= 1,
        filament_diameter > 0,
    ensures
        k * feed_length(distance as int, layer_height as int, line_width as int, filament_diameter as int, flow as int)
            <= feed_length((k * distance) as int, layer_height as int, line_width as int, filament_diameter as int, flow as int)
            < k * feed_length(distance as int, layer_height as int, line_width as int, filament_diameter as int, flow as int) + k,
{
    let n = feed_numerator(distance as int, layer_height as int, line_width as int, flow as int);
    let den = ratio_den(filament_diameter as int) * FLOW_ONE;
    assert((k * distance) * flow * (4 * PI_DEN * layer_height * line_width) == k * (distance * flow * (4 * PI_DEN * layer_height * line_width))) by (nonlinear_arith);
    assert(n >= 0 && den > 0) by (nonlinear_arith)
        requires n == distance * flow * (4 * PI_DEN * layer_height * line_width), den == PI_NUM * filament_diameter * filament_diameter * FLOW_ONE, filament_diameter > 0, PI_NUM == 355, PI_DEN == 113, FLOW_ONE == 1000;
    lemma_floor_div_scale(n, den, k as int);
}

/// Feed is linear in the flow multiplier: `k` times the multiplier gives `k`
/// times the feed, up to the rounding of each to a whole nanometre.
pub proof fn feed_scales_with_flow(k: nat, distance: nat, layer_height: nat, line_width: nat, filament_diameter: nat, flow: nat)
    requires
        k >= 1,
        filament_diameter > 0,
    ensures
        k * feed_length(distance as int, layer_height as int, line_width as int, filament_diameter as int, flow as int)
            <= feed_length(distance as int, layer_height as int, line_width as int, filament_diameter as int, (k * flow) as int)
            < k * feed_length(distance as int, layer_height as int, line_width as int, filament_diameter as int, flow as int) + k,
{
    let n = feed_numerator(distance as int, layer_height as int, line_width as int, flow as int);
    let den = ratio_den(filament_diameter as int) * FLOW_ONE;
    assert(distance * (k * flow) * (4 * PI_DEN * layer_height * line_width) == k * (distance * flow * (4 * PI_DEN * layer_height * line_width))) by (nonlinear_arith);
    assert(n >= 0 && den > 0) by (nonlinear_arith)
        requires n == distance * flow * (4 * PI_DEN * layer_height * line_width), den == PI_NUM * filament_diameter * filament_diameter * FLOW_ONE, filament_diameter > 0, PI_NUM == 355, PI_DEN == 113, FLOW_ONE == 1000;
    lemma_floor_div_scale(n, den, k as int);
}

/// Feed is proportional to the bead's cross-section `layer_height * line_width`:
/// a layer `k` times as high needs `k` times the feed, up to rounding.
pub proof fn feed_scales_with_cross_section(k: nat, distance: nat, layer_height: nat, line_width: nat, filament_diameter: nat, flow: nat)
    requires
        k >= 1,
        filament_diameter > 0,
    ensures
        k * feed_length(distance as int, layer_height as int, line_width as int, filament_diameter as int, flow as int)
            <= feed_length(distance as int, (k * layer_height) as int, line_width as int, filament_diameter as int, flow as int)
            < k * feed_length(distance as int, layer_height as int, line_width as int, filament_diameter as int, flow as int) + k,
        feed_length(distance as int, layer_height as int, line_width as int, filament_diameter as int, flow as int)
            == feed_length(distance as int, line_width as int, layer_height as int, filament_diameter as int, flow as int),
{
    let n = feed_numerator(distance as int, layer_height as int, line_width as int, flow as int);
    let den = ratio_den(filament_diameter as int) * FLOW_ONE;
    assert(distance * flow * (4 * PI_DEN * (k * layer_height) * line_width) == k * (distance * flow * (4 * PI_DEN * layer_height * line_width))) by (nonlinear_arith);
    assert(distance * flow * (4 * PI_DEN * line_width * layer_height) == distance * flow * (4 * PI_DEN * layer_height * line_width)) by (nonlinear_arith);
    assert(n >= 0 && den > 0) by (nonlinear_arith)
        requires n == distance * flow * (4 * PI_DEN * layer_height * line_width), den == PI_NUM * filament_diameter * filament_diameter * FLOW_ONE, filament_diameter > 0, PI_NUM == 355, PI_DEN == 113, FLOW_ONE == 1000;
    lemma_floor_div_scale(n, den, k as int);
}

} // verus!
