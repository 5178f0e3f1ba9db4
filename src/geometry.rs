use vstd::prelude::*;

verus! {

/// A point of the machine's work space, in nanometres.
#[derive(Clone, Copy, Debug, PartialEq, Eq, Structural)]
pub struct Point {
    pub x: i32,
    pub y: i32,
    pub z: i32,
}

impl Point {
    pub fn new(x: i32, y: i32, z: i32) -> (r: Point)
        ensures
            r == (Point { x, y, z }),
    {
        Point { x, y, z }
    }

    /// The origin, where the machine stands after homing.
    pub fn origin() -> (r: Point)
        ensures
            r == (Point { x: 0, y: 0, z: 0 }),
    {
        Point { x: 0, y: 0, z: 0 }
    }
}

/// Whether an integer is a coordinate that a `Point` can hold.
pub open spec fn coord_fits(v: int) -> bool {
    i32::MIN <= v <= i32::MAX
}

/// The squared Euclidean distance between two points.
pub open spec fn dist_sq(a: Point, b: Point) -> nat {
    let dx = a.x - b.x;
    let dy = a.y - b.y;
    let dz = a.z - b.z;
    (dx * dx + dy * dy + dz * dz) as nat
}

/// `r` is the integer square root of `n`: the largest `r` with `r * r <= n`.
pub open spec fn is_isqrt(n: nat, r: nat) -> bool {
    r * r <= n < (r + 1) * (r + 1)
}

/// The Euclidean distance between two points, rounded down to a nanometre.
pub open spec fn distance(a: Point, b: Point) -> nat {
    choose|r: nat| is_isqrt(dist_sq(a, b), r)
}

proof fn lemma_isqrt_unique(n: nat, r1: nat, r2: nat)
    requires
        is_isqrt(n, r1),
        is_isqrt(n, r2),
    ensures
        r1 == r2,
{
    if r1 < r2 {
        assert((r1 + 1) * (r1 + 1) <= r2 * r2) by (nonlinear_arith)
            requires r1 + 1 <= r2;
    } else if r2 < r1 {
        assert((r2 + 1) * (r2 + 1) <= r1 * r1) by (nonlinear_arith)
            requires r2 + 1 <= r1;
    }
}

/// Integer square root of `n`, found by bisection.
pub fn isqrt(n: u128) -> (r: u64)
    requires
        n < 0x1_0000_0000_0000_0000_0000,
    ensures
        is_isqrt(n as nat, r as nat),
{
    // 2^40 squared exceeds every admitted `n`.
    let mut lo: u64 = 0;
    let mut hi: u64 = 0x100_0000_0000;
    while lo + 1 < hi
        invariant
            lo < hi <= 0x100_0000_0000,
            (lo as nat) * (lo as nat) <= n,
            n < (hi as nat) * (hi as nat),
        decreases hi - lo,
    {
        let mid: u64 = lo + (hi - lo) / 2;
        assert((mid as nat) * (mid as nat) <= 0x100_0000_0000 * 0x100_0000_0000) by (nonlinear_arith)
            requires mid <= 0x100_0000_0000;
        let sq: u128 = (mid as u128) * (mid as u128);
        if sq <= n {
            lo = mid;
        } else {
            hi = mid;
        }
    }
    lo
}

/// The distance between two points, rounded down to a nanometre.
pub fn point_distance(a: Point, b: Point) -> (r: u64)
    ensures
        r == distance(a, b),
        r < 0x2_0000_0000,
{
    let dx: i64 = a.x as i64 - b.x as i64;
    let dy: i64 = a.y as i64 - b.y as i64;
    let dz: i64 = a.z as i64 - b.z as i64;
    assert(dx * dx <= 0x1_0000_0000 * 0x1_0000_0000) by (nonlinear_arith)
        requires -0x1_0000_0000 <= dx <= 0x1_0000_0000;
    assert(dy * dy <= 0x1_0000_0000 * 0x1_0000_0000) by (nonlinear_arith)
        requires -0x1_0000_0000 <= dy <= 0x1_0000_0000;
    assert(dz * dz <= 0x1_0000_0000 * 0x1_0000_0000) by (nonlinear_arith)
        requires -0x1_0000_0000 <= dz <= 0x1_0000_0000;
    assert(dx * dx >= 0 && dy * dy >= 0 && dz * dz >= 0) by (nonlinear_arith);
    let sq: u128 = (dx as i128 * dx as i128) as u128 + (dy as i128 * dy as i128) as u128 + (dz as i128 * dz as i128) as u128;
    let r = isqrt(sq);
    proof {
        let s = dist_sq(a, b);
        assert(sq as nat == s);
        assert(is_isqrt(s, r as nat));
        lemma_isqrt_unique(s, r as nat, distance(a, b));
        assert(r < 0x2_0000_0000) by (nonlinear_arith)
            requires (r as int) * (r as int) <= sq, sq <= 3 * (0x1_0000_0000 * 0x1_0000_0000);
    }
    r
}

/// The scale of the unit circle: a sine or cosine of one is `UNIT`.
pub const UNIT: i64 = 1_000_000_000;

/// The sine of `5 * k` degrees for `k` in `0..=18`, in units of `1 / UNIT`,
/// rounded to the nearest unit.
pub open spec fn sine_of_step(k: int) -> int {
    if k == 0 {
        0
    } else if k == 1 {
        87155743
    } else if k == 2 {
        173648178
    } else if k == 3 {
        258819045
    } else if k == 4 {
        342020143
    } else if k == 5 {
        422618262
    } else if k == 6 {
        500000000
    } else if k == 7 {
        573576436
    } else if k == 8 {
        642787610
    } else if k == 9 {
        707106781
    } else if k == 10 {
        766044443
    } else if k == 11 {
        819152044
    } else if k == 12 {
        866025404
    } else if k == 13 {
        906307787
    } else if k == 14 {
        939692621
    } else if k == 15 {
        965925826
    } else if k == 16 {
        984807753
    } else if k == 17 {
        996194698
    } else {
        1000000000
    }
}

/// The sine of `deg` degrees, in units of `1 / UNIT`, for a whole multiple of five degrees.
pub open spec fn unit_sin(deg: nat) -> int {
    let a: int = (deg % 360) as int;
    if a <= 90 {
        sine_of_step(a / 5)
    } else if a <= 180 {
        sine_of_step((180 - a) / 5)
    } else if a <= 270 {
        -sine_of_step((a - 180) / 5)
    } else {
        -sine_of_step((360 - a) / 5)
    }
}

/// The cosine of `deg` degrees, in units of `1 / UNIT`, for a whole multiple of five degrees.
pub open spec fn unit_cos(deg: nat) -> int {
    unit_sin(deg + 90)
}

/// `r` times the unit value `u`, rounded toward zero.
pub open spec fn scale_by_unit(r: int, u: int) -> int {
    if u >= 0 {
        r * u / UNIT as int
    } else {
        -(r * (-u) / UNIT as int)
    }
}

/// The point at radius `r` and angle `deg` around `center`, in the plane `z`.
pub open spec fn polar_point(center: Point, r: nat, deg: nat, z: int) -> (int, int, int) {
    (center.x + scale_by_unit(r as int, unit_cos(deg)), center.y + scale_by_unit(r as int, unit_sin(deg)), z)
}

fn sine_step(k: u64) -> (r: i64)
    requires
        k <= 18,
    ensures
        r == sine_of_step(k as int),
        0 <= r <= UNIT,
{
    match k {
        0 => 0,
        1 => 87155743,
        2 => 173648178,
        3 => 258819045,
        4 => 342020143,
        5 => 422618262,
        6 => 500000000,
        7 => 573576436,
        8 => 642787610,
        9 => 707106781,
        10 => 766044443,
        11 => 819152044,
        12 => 866025404,
        13 => 906307787,
        14 => 939692621,
        15 => 965925826,
        16 => 984807753,
        17 => 996194698,
        _ => 1000000000,
    }
}

/// The sine of `deg` degrees (a multiple of five), in units of `1 / UNIT`.
pub fn sin_deg(deg: u64) -> (r: i64)
    requires
        deg % 5 == 0,
    ensures
        r == unit_sin(deg as nat),
        -UNIT <= r <= UNIT,
{
    let a = deg % 360;
    if a <= 90 {
        sine_step(a / 5)
    } else if a <= 180 {
        sine_step((180 - a) / 5)
    } else if a <= 270 {
        -sine_step((a - 180) / 5)
    } else {
        -sine_step((360 - a) / 5)
    }
}

/// The cosine of `deg` degrees (a multiple of five), in units of `1 / UNIT`.
pub fn cos_deg(deg: u64) -> (r: i64)
    requires
        deg % 5 == 0,
        deg <= u64::MAX - 90,
    ensures
        r == unit_cos(deg as nat),
        -UNIT <= r <= UNIT,
{
    sin_deg(deg + 90)
}

/// `r` times the unit value `u`, rounded toward zero.
pub fn scale_unit(r: u32, u: i64) -> (v: i64)
    requires
        -UNIT <= u <= UNIT,
    ensures
        v == scale_by_unit(r as int, u as int),
        -(r as int) <= v <= r,
{
    let m: u64 = if u >= 0 { u as u64 } else { (-u) as u64 };
    assert((r as int) * (m as int) <= (r as int) * UNIT) by (nonlinear_arith)
        requires m <= UNIT, r >= 0;
    assert((r as int) * UNIT <= 0x1_0000_0000 * 1_000_000_000) by (nonlinear_arith)
        requires r < 0x1_0000_0000;
    let p: u64 = r as u64 * m;
    let q: u64 = p / (UNIT as u64);
    assert(q <= r) by (nonlinear_arith)
        requires p <= (r as int) * UNIT, q == p as int / UNIT as int, UNIT == 1_000_000_000;
    if u >= 0 {
        q as i64
    } else {
        -(q as i64)
    }
}

/// Each tabulated sine and its complementary cosine lie on the unit circle
/// to within the rounding of the two entries, and the sine rises with the angle.
pub proof fn sine_table_on_unit_circle(k: int)
    requires
        0 <= k <= 18,
    ensures
        UNIT * UNIT - 2 * UNIT <= sine_of_step(k) * sine_of_step(k) + sine_of_step(18 - k) * sine_of_step(18 - k) <= UNIT * UNIT + 2 * UNIT,
        k < 18 ==> sine_of_step(k) < sine_of_step(k + 1),
{
}

} // verus!
