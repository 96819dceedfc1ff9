//! Points and directions in fixed point.
use vstd::prelude::*;
use crate::fixed::{UNIT, isqrt, is_isqrt, sqrt_spec, abs_spec};

verus! {

/// Largest coordinate magnitude that a raw point may have.
pub const COORD_LIMIT: i64 = 1_073_741_824;

/// A point or direction in micro-units.
#[derive(Clone, Copy, Debug, PartialEq, Eq, Structural)]
pub struct Vec3 {
    pub x: i64,
    pub y: i64,
    pub z: i64,
}

impl Vec3 {
    /// Each coordinate lies in `[-UNIT, UNIT]`, as those of a unit direction do.
    pub open spec fn is_direction(&self) -> bool {
        -UNIT <= self.x <= UNIT && -UNIT <= self.y <= UNIT && -UNIT <= self.z <= UNIT
    }

    /// Each coordinate is small enough for the squared length to be computed.
    pub open spec fn is_bounded(&self) -> bool {
        -COORD_LIMIT <= self.x <= COORD_LIMIT && -COORD_LIMIT <= self.y <= COORD_LIMIT
            && -COORD_LIMIT <= self.z <= COORD_LIMIT
    }

    /// Squared length.
    pub open spec fn norm_sq(&self) -> int {
        self.x * self.x + self.y * self.y + self.z * self.z
    }
}

/// Dot product.
pub open spec fn dot_spec(a: Vec3, b: Vec3) -> int {
    a.x * b.x + a.y * b.y + a.z * b.z
}

/// Squared straight-line (chordal) distance.
pub open spec fn dist_sq_spec(a: Vec3, b: Vec3) -> int {
    (a.x - b.x) * (a.x - b.x) + (a.y - b.y) * (a.y - b.y) + (a.z - b.z) * (a.z - b.z)
}

/// One coordinate of a vector of length `len`, rescaled to length one unit,
/// rounded toward zero.
pub open spec fn unit_coord(c: int, len: int) -> int {
    if c >= 0 {
        c * UNIT / len
    } else {
        -((-c) * UNIT / len)
    }
}

/// The direction of `v`, or `None` for the zero vector.
pub open spec fn normalize_spec(v: Vec3) -> Option<Vec3> {
    let len = sqrt_spec(v.norm_sq());
    if len == 0 {
        None
    } else {
        Some(Vec3 { x: unit_coord(v.x as int, len) as i64, y: unit_coord(v.y as int, len) as i64,
            z: unit_coord(v.z as int, len) as i64 })
    }
}

/// Dot product of two directions.
pub fn dot(a: Vec3, b: Vec3) -> (r: i64)
    requires
        a.is_direction(),
        b.is_direction(),
    ensures
        r == dot_spec(a, b),
        -3 * UNIT * UNIT <= r <= 3 * UNIT * UNIT,
{
    assert(-UNIT * UNIT <= a.x * b.x <= UNIT * UNIT) by (nonlinear_arith)
        requires
            -UNIT <= a.x <= UNIT,
            -UNIT <= b.x <= UNIT,
    ;
    assert(-UNIT * UNIT <= a.y * b.y <= UNIT * UNIT) by (nonlinear_arith)
        requires
            -UNIT <= a.y <= UNIT,
            -UNIT <= b.y <= UNIT,
    ;
    assert(-UNIT * UNIT <= a.z * b.z <= UNIT * UNIT) by (nonlinear_arith)
        requires
            -UNIT <= a.z <= UNIT,
            -UNIT <= b.z <= UNIT,
    ;
    a.x * b.x + a.y * b.y + a.z * b.z
}

/// Chordal distance does not depend on the order of its ends.
pub proof fn lemma_dist_sq_symmetric(a: Vec3, b: Vec3)
    ensures
        dist_sq_spec(a, b) == dist_sq_spec(b, a),
{
    assert((a.x - b.x) * (a.x - b.x) == (b.x - a.x) * (b.x - a.x)) by (nonlinear_arith);
    assert((a.y - b.y) * (a.y - b.y) == (b.y - a.y) * (b.y - a.y)) by (nonlinear_arith);
    assert((a.z - b.z) * (a.z - b.z) == (b.z - a.z) * (b.z - a.z)) by (nonlinear_arith);
}

/// Squared distances are never negative.
pub proof fn lemma_dist_sq_nonneg(a: Vec3, b: Vec3)
    ensures
        dist_sq_spec(a, b) >= 0,
{
    assert((a.x - b.x) * (a.x - b.x) >= 0) by (nonlinear_arith);
    assert((a.y - b.y) * (a.y - b.y) >= 0) by (nonlinear_arith);
    assert((a.z - b.z) * (a.z - b.z) >= 0) by (nonlinear_arith);
}

proof fn lemma_square_bound(d: int, m: int)
    requires
        -m <= d <= m,
    ensures
        0 <= d * d <= m * m,
{
    assert(0 <= d * d <= m * m) by (nonlinear_arith)
        requires
            -m <= d <= m,
    ;
}

/// Squared chordal distance between two directions.
pub fn dist_sq(a: Vec3, b: Vec3) -> (r: i64)
    requires
        a.is_direction(),
        b.is_direction(),
    ensures
        r == dist_sq_spec(a, b),
        0 <= r <= 12 * UNIT * UNIT,
{
    let dx: i64 = a.x - b.x;
    let dy: i64 = a.y - b.y;
    let dz: i64 = a.z - b.z;
    proof {
        lemma_square_bound(dx as int, 2 * UNIT);
        lemma_square_bound(dy as int, 2 * UNIT);
        lemma_square_bound(dz as int, 2 * UNIT);
    }
    dx * dx + dy * dy + dz * dz
}

proof fn lemma_coord_le_len(c: int, n: int, len: int)
    requires
        0 <= c * c <= n,
        is_isqrt(n, len),
    ensures
        abs_spec(c) <= len,
{
    let b = abs_spec(c);
    assert(b * b == c * c) by (nonlinear_arith)
        requires
            b == abs_spec(c),
    ;
    if b > len {
        assert((len + 1) * (len + 1) <= b * b) by (nonlinear_arith)
            requires
                0 <= len + 1 <= b,
        ;
    }
}

fn unit_coord_exec(c: i64, len: u64) -> (r: i64)
    requires
        1 <= len < 2147483648u64,
        abs_spec(c as int) <= len,
    ensures
        r == unit_coord(c as int, len as int),
        -UNIT <= r <= UNIT,
{
    let b: u64 = if c >= 0 { c as u64 } else { (-c) as u64 };
    assert(b * (UNIT as u64) <= len * (UNIT as u64)) by (nonlinear_arith)
        requires
            b <= len,
    ;
    assert(len * (UNIT as u64) <= 2147483648u64 * 1_000_000) by (nonlinear_arith)
        requires
            len <= 2147483648u64,
    ;
    let q: u64 = b * (UNIT as u64) / len;
    assert(q <= UNIT) by (nonlinear_arith)
        requires
            b <= len,
            1 <= len,
            q as int == (b as int) * 1_000_000 / (len as int),
    ;
    if c >= 0 {
        q as i64
    } else {
        -(q as i64)
    }
}

/// The direction of `v`, rescaled to length one unit; `None` for the zero
/// vector.
pub fn normalize(v: Vec3) -> (r: Option<Vec3>)
    requires
        v.is_bounded(),
    ensures
        r == normalize_spec(v),
        r matches Some(d) ==> d.is_direction(),
{
    proof {
        lemma_square_bound(v.x as int, COORD_LIMIT as int);
        lemma_square_bound(v.y as int, COORD_LIMIT as int);
        lemma_square_bound(v.z as int, COORD_LIMIT as int);
    }
    let n: u64 = (v.x * v.x) as u64 + (v.y * v.y) as u64 + (v.z * v.z) as u64;
    let len: u64 = isqrt(n);
    if len == 0 {
        None
    } else {
        proof {
            lemma_coord_le_len(v.x as int, n as int, len as int);
            lemma_coord_le_len(v.y as int, n as int, len as int);
            lemma_coord_le_len(v.z as int, n as int, len as int);
        }
        let x: i64 = unit_coord_exec(v.x, len);
        let y: i64 = unit_coord_exec(v.y, len);
        let z: i64 = unit_coord_exec(v.z, len);
        Some(Vec3 { x, y, z })
    }
}

} // verus!
