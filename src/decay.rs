use vstd::prelude::*;
use vstd::arithmetic::div_mod::*;

verus! {

/// The decay factor that leaves a feed unchanged (1.0).
pub const DECAY_ONE: i128 = 1_000_000;

/// The shape constant `k = num / den` of the flow taper: the factor reaches
/// zero at radius `k * diameter / 2`, slightly beyond the rim for `k > 1`.
#[derive(Clone, Copy, Debug, PartialEq, Eq, Structural)]
pub struct DecayShape {
    pub num: u16,
    pub den: u16,
}

impl DecayShape {
    pub open spec fn valid(self) -> bool {
        self.num > 0 && self.den > 0
    }

    /// The shape `num / den`.
    pub fn new(num: u16, den: u16) -> (r: DecayShape)
        ensures
            r == (DecayShape { num, den }),
    {
        DecayShape { num, den }
    }
}

/// `1 - (2 * radius / (k * diameter))^2` in units of `1 / DECAY_ONE`, rounded down:
/// with `a = num * diameter` and `b = 2 * radius * den`, it is `(a^2 - b^2) / a^2`.
pub open spec fn decay_factor_of(radius: int, diameter: int, shape: DecayShape) -> int {
    let a = shape.num * diameter;
    let b = 2 * radius * shape.den;
    (DECAY_ONE * (a * a - b * b)) / (a * a)
}

/// A feed scaled by a decay factor that is first clamped to be non-negative, rounded down.
pub open spec fn decayed_feed_of(feed: int, factor: int) -> int {
    if factor <= 0 {
        0
    } else {
        feed * factor / DECAY_ONE as int
    }
}

/// Euclidean division of a negative numerator rounds away from zero.
pub(crate) proof fn lemma_neg_div(y: int, d: int)
    requires
        y > 0,
        d > 0,
    ensures
        (-y) / d == -((y + d - 1) / d),
{
    let q = (y + d - 1) / d;
    let m = (y + d - 1) % d;
    lemma_fundamental_div_mod(y + d - 1, d);
    lemma_mod_pos_bound(y + d - 1, d);
    assert(-y == (-q) * d + (d - 1 - m)) by (nonlinear_arith)
        requires y + d - 1 == d * q + m;
    lemma_fundamental_div_mod_converse(-y, d, -q, d - 1 - m);
}

/// The flow scale at `radius` on a disc of `diameter` (both nm), in units of
/// `1 / DECAY_ONE`. Beyond the taper's end the value is negative; callers clamp.
pub fn decay_factor(radius: u32, diameter: u32, shape: DecayShape) -> (r: i128)
    requires
        diameter > 0,
        shape.valid(),
    ensures
        r == decay_factor_of(radius as int, diameter as int, shape),
        r <= DECAY_ONE,
{
    let ghost ai: int = shape.num * diameter;
    let ghost bi: int = 2 * radius * shape.den;
    assert(0 < ai < 0x1_0000_0000_0000) by (nonlinear_arith)
        requires ai == shape.num * diameter, shape.num > 0, diameter > 0, shape.num <= 0xffff, diameter <= 0xffff_ffff;
    assert(0 <= bi < 0x2_0000_0000_0000) by (nonlinear_arith)
        requires bi == 2 * radius * shape.den, radius <= 0xffff_ffff, shape.den <= 0xffff;
    let a: u128 = shape.num as u128 * diameter as u128;
    let b: u128 = 2 * radius as u128 * shape.den as u128;
    assert(0 < a * a <= 0x1_0000_0000_0000_0000_0000_0000) by (nonlinear_arith)
        requires 0 < a < 0x1_0000_0000_0000;
    assert(b * b <= 0x4_0000_0000_0000_0000_0000_0000) by (nonlinear_arith)
        requires b < 0x2_0000_0000_0000;
    let a2: u128 = a * a;
    let b2: u128 = b * b;
    let one: u128 = DECAY_ONE as u128;
    if b2 <= a2 {
        let q: u128 = one * (a2 - b2) / a2;
        assert(q <= one) by (nonlinear_arith)
            requires q == (one as int) * (a2 - b2) / (a2 as int), b2 <= a2, a2 > 0, one > 0;
        q as i128
    } else {
        let y: u128 = one * (b2 - a2);
        assert(y <= 0x100_0000_0000_0000_0000_0000_0000_0000) by (nonlinear_arith)
            requires y == one * (b2 - a2), one == 1_000_000, b2 <= 0x4_0000_0000_0000_0000_0000_0000, a2 > 0;
        let q: u128 = (y + a2 - 1) / a2;
        proof { lemma_neg_div(y as int, a2 as int); }
        assert(q <= y) by (nonlinear_arith)
            requires q == (y as int + a2 as int - 1) / (a2 as int), a2 >= 1, y >= 1;
        -(q as i128)
    }
}

/// `feed` scaled by `factor` (units of `1 / DECAY_ONE`) after clamping the
/// factor at zero, so that a taper never reverses the extruder.
pub fn decayed_feed(feed: i64, factor: i128) -> (r: i64)
    requires
        feed >= 0,
        factor <= DECAY_ONE,
    ensures
        r == decayed_feed_of(feed as int, factor as int),
        0 <= r <= feed,
{
    if factor <= 0 {
        0
    } else {
        assert((feed as int) * (factor as int) <= (feed as int) * DECAY_ONE) by (nonlinear_arith)
            requires feed >= 0, factor <= DECAY_ONE;
        assert((feed as int) * DECAY_ONE <= 0x7fff_ffff_ffff_ffff * DECAY_ONE) by (nonlinear_arith)
            requires feed <= 0x7fff_ffff_ffff_ffff;
        let p: i128 = feed as i128 * factor;
        let q: i128 = p / DECAY_ONE;
        assert(0 <= q <= feed) by (nonlinear_arith)
            requires p == feed * factor, q == (p as int) / (DECAY_ONE as int), p <= (feed as int) * DECAY_ONE, p >= 0, DECAY_ONE == 1_000_000;
        q as i64
    }
}

/// At the centre the factor is exactly one; at radius `k * diameter / 2` it is exactly zero.
pub proof fn decay_factor_ends(diameter: nat, radius: nat, shape: DecayShape)
    requires
        diameter > 0,
        shape.valid(),
        2 * radius * shape.den == shape.num * diameter,
    ensures
        decay_factor_of(0, diameter as int, shape) == DECAY_ONE,
        decay_factor_of(radius as int, diameter as int, shape) == 0,
{
    let a = shape.num * diameter;
    assert(a * a > 0) by (nonlinear_arith)
        requires a == shape.num * diameter, shape.num > 0, diameter > 0;
    assert(2 * 0 * shape.den == 0) by (nonlinear_arith);
    assert(DECAY_ONE * (a * a - 0 * 0) / (a * a) == DECAY_ONE) by (nonlinear_arith)
        requires a * a > 0;
    assert((2 * radius * shape.den) * (2 * radius * shape.den) == a * a);
}

/// Any positive feed at a radius past the centre is strictly reduced by the
/// taper; in particular at the nominal rim, radius `diameter / 2`.
pub proof fn decay_reduces_feed(feed: nat, radius: nat, diameter: nat, shape: DecayShape)
    requires
        feed > 0,
        radius > 0,
        diameter > 0,
        shape.valid(),
    ensures
        decayed_feed_of(feed as int, decay_factor_of(radius as int, diameter as int, shape)) < feed,
{
    let a = shape.num * diameter;
    let b = 2 * radius * shape.den;
    let f = decay_factor_of(radius as int, diameter as int, shape);
    assert(a * a > 0 && b * b > 0) by (nonlinear_arith)
        requires a == shape.num * diameter, b == 2 * radius * shape.den, shape.num > 0, shape.den > 0, diameter > 0, radius > 0;
    assert(f < DECAY_ONE) by (nonlinear_arith)
        requires f == (DECAY_ONE * (a * a - b * b)) / (a * a), a * a > 0, b * b > 0, DECAY_ONE == 1_000_000;
    if f > 0 {
        assert(feed * f / (DECAY_ONE as int) < feed) by (nonlinear_arith)
            requires f < DECAY_ONE, feed > 0, DECAY_ONE == 1_000_000;
    }
}

} // verus!
