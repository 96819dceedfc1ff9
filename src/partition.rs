//! Nearest and second-nearest plate of a domain-warped point.
use vstd::prelude::*;
use crate::fixed::{UNIT, clamp, clamp_spec, scale, scale_spec};
use crate::vector::{Vec3, dist_sq, dist_sq_spec, normalize, normalize_spec};
use crate::config::Config;
use crate::plates::Plate;

verus! {

/// Squared distance from `p` to the center of plate `k`.
pub open spec fn plate_dist_sq(p: Vec3, plates: Seq<Plate>, k: int) -> int {
    dist_sq_spec(p, plates[k].center)
}

/// Plate `n` is the nearest to `p` among the first `upto` plates, the first
/// such in order when several are equally near.
pub open spec fn is_nearest_upto(p: Vec3, plates: Seq<Plate>, n: int, upto: int) -> bool {
    &&& 0 <= n < upto
    &&& forall|k: int| 0 <= k < upto ==> plate_dist_sq(p, plates, n) <= #[trigger] plate_dist_sq(p, plates, k)
    &&& forall|k: int| 0 <= k < n ==> plate_dist_sq(p, plates, n) < #[trigger] plate_dist_sq(p, plates, k)
}

/// Plate `s` is the nearest to `p` among the first `upto` plates other than
/// `n`, the first such in order when several are equally near.
pub open spec fn is_second_upto(p: Vec3, plates: Seq<Plate>, n: int, s: int, upto: int) -> bool {
    &&& 0 <= s < upto
    &&& s != n
    &&& forall|k: int|
        0 <= k < upto && k != n ==> plate_dist_sq(p, plates, s) <= #[trigger] plate_dist_sq(p, plates, k)
    &&& forall|k: int|
        0 <= k < s && k != n ==> plate_dist_sq(p, plates, s) < #[trigger] plate_dist_sq(p, plates, k)
}

/// Plate `n` is the nearest plate to `p`.
pub open spec fn is_nearest(p: Vec3, plates: Seq<Plate>, n: int) -> bool {
    is_nearest_upto(p, plates, n, plates.len() as int)
}

/// Plate `s` is the second-nearest plate to `p`, when `n` is the nearest.
pub open spec fn is_second(p: Vec3, plates: Seq<Plate>, n: int, s: int) -> bool {
    is_second_upto(p, plates, n, s, plates.len() as int)
}

/// The nearest plate to `p`.
pub open spec fn nearest_spec(p: Vec3, plates: Seq<Plate>) -> int {
    choose|n: int| is_nearest(p, plates, n)
}

/// The second-nearest plate to `p`.
pub open spec fn second_spec(p: Vec3, plates: Seq<Plate>) -> int {
    choose|s: int| is_second(p, plates, nearest_spec(p, plates), s)
}

/// A nearest plate among the first `upto` exists.
proof fn nearest_witness(p: Vec3, plates: Seq<Plate>, upto: int) -> (n: int)
    requires
        1 <= upto <= plates.len(),
    ensures
        is_nearest_upto(p, plates, n, upto),
    decreases upto,
{
    if upto == 1 {
        0
    } else {
        let m = nearest_witness(p, plates, upto - 1);
        if plate_dist_sq(p, plates, upto - 1) < plate_dist_sq(p, plates, m) {
            upto - 1
        } else {
            m
        }
    }
}

/// A second-nearest plate among the first `upto`, besides `n`, exists when
/// there is a plate there other than `n`.
proof fn second_witness(p: Vec3, plates: Seq<Plate>, n: int, upto: int) -> (s: int)
    requires
        0 <= n < plates.len(),
        1 <= upto <= plates.len(),
        !(upto == 1 && n == 0),
    ensures
        is_second_upto(p, plates, n, s, upto),
    decreases upto,
{
    let last = upto - 1;
    if last == n {
        second_witness(p, plates, n, upto - 1)
    } else if last == 0 || (last == 1 && n == 0) {
        last
    } else {
        let m = second_witness(p, plates, n, upto - 1);
        if plate_dist_sq(p, plates, last) < plate_dist_sq(p, plates, m) {
            last
        } else {
            m
        }
    }
}

/// Every non-empty plate set has a nearest plate, and one of two plates or
/// more a second-nearest.
pub proof fn lemma_partition_exists(p: Vec3, plates: Seq<Plate>)
    requires
        plates.len() >= 1,
    ensures
        is_nearest(p, plates, nearest_spec(p, plates)),
        plates.len() >= 2 ==> is_second(p, plates, nearest_spec(p, plates), second_spec(p, plates)),
{
    let n = nearest_witness(p, plates, plates.len() as int);
    assert(is_nearest(p, plates, n));
    if plates.len() >= 2 {
        let m = nearest_spec(p, plates);
        let s = second_witness(p, plates, m, plates.len() as int);
        assert(is_second(p, plates, m, s));
    }
}

/// There is one nearest plate.
pub proof fn lemma_nearest_unique(p: Vec3, plates: Seq<Plate>, a: int, b: int)
    requires
        is_nearest(p, plates, a),
        is_nearest(p, plates, b),
    ensures
        a == b,
{
    if a < b {
        assert(plate_dist_sq(p, plates, a) <= plate_dist_sq(p, plates, b));
    } else if b < a {
        assert(plate_dist_sq(p, plates, b) <= plate_dist_sq(p, plates, a));
    }
}

/// There is one second-nearest plate.
pub proof fn lemma_second_unique(p: Vec3, plates: Seq<Plate>, n: int, a: int, b: int)
    requires
        is_second(p, plates, n, a),
        is_second(p, plates, n, b),
    ensures
        a == b,
{
    if a < b {
        assert(plate_dist_sq(p, plates, a) <= plate_dist_sq(p, plates, b));
    } else if b < a {
        assert(plate_dist_sq(p, plates, b) <= plate_dist_sq(p, plates, a));
    }
}

/// The outcome of the two-nearest query.
#[derive(Clone, Copy, Debug)]
pub struct Partition {
    /// Index of the nearest plate.
    pub nearest: usize,
    /// Squared distance to the nearest plate's center.
    pub nearest_dist_sq: i64,
    /// Index of the second-nearest plate; none when there is one plate.
    pub second: Option<usize>,
    /// Squared distance to the second-nearest plate's center, when there is
    /// one.
    pub second_dist_sq: i64,
}

/// Finds the nearest and second-nearest plate centers to `p` in one pass.
pub fn nearest_two(p: Vec3, plates: &Vec<Plate>) -> (r: Partition)
    requires
        p.is_direction(),
        plates@.len() >= 1,
        forall|i: int| 0 <= i < plates@.len() ==> (#[trigger] plates@[i]).wf(),
    ensures
        is_nearest(p, plates@, r.nearest as int),
        r.nearest == nearest_spec(p, plates@),
        r.nearest_dist_sq == plate_dist_sq(p, plates@, r.nearest as int),
        0 <= r.nearest_dist_sq <= 12 * UNIT * UNIT,
        0 <= r.second_dist_sq <= 12 * UNIT * UNIT,
        r.second is None <==> plates@.len() == 1,
        r.second matches Some(s) ==> {
            &&& is_second(p, plates@, r.nearest as int, s as int)
            &&& s == second_spec(p, plates@)
            &&& r.second_dist_sq == plate_dist_sq(p, plates@, s as int)
        },
{
    let mut n: usize = 0;
    let mut dn: i64 = dist_sq(p, plates[0].center);
    let mut second: Option<usize> = None;
    let mut ds: i64 = 0;
    let mut i: usize = 1;
    while i < plates.len()
        invariant
            p.is_direction(),
            forall|k: int| 0 <= k < plates@.len() ==> (#[trigger] plates@[k]).wf(),
            1 <= i <= plates@.len(),
            is_nearest_upto(p, plates@, n as int, i as int),
            dn == plate_dist_sq(p, plates@, n as int),
            0 <= dn <= 12 * UNIT * UNIT,
            0 <= ds <= 12 * UNIT * UNIT,
            second is None <==> i == 1,
            second matches Some(s) ==> is_second_upto(p, plates@, n as int, s as int, i as int)
                && ds == plate_dist_sq(p, plates@, s as int),
        decreases plates@.len() - i,
    {
        let d: i64 = dist_sq(p, plates[i].center);
        assert(d == plate_dist_sq(p, plates@, i as int));
        let closer_than_second = match second {
            None => true,
            Some(_) => d < ds,
        };
        if d < dn {
            second = Some(n);
            ds = dn;
            n = i;
            dn = d;
        } else if closer_than_second {
            second = Some(i);
            ds = d;
        }
        i = i + 1;
    }
    proof {
        assert(is_nearest(p, plates@, n as int));
        lemma_nearest_unique(p, plates@, n as int, nearest_spec(p, plates@));
        if let Some(s) = second {
            assert(is_second(p, plates@, nearest_spec(p, plates@), s as int));
            lemma_second_unique(p, plates@, n as int, s as int, second_spec(p, plates@));
        }
    }
    Partition { nearest: n, nearest_dist_sq: dn, second, second_dist_sq: ds }
}

/// Offset of one coordinate under domain warping: the noise sample, taken
/// within `[-1, 1]`, times the warp strength.
pub open spec fn warp_offset_spec(cfg: Config, n: i64) -> int {
    scale_spec(clamp_spec(n as int, -UNIT as int, UNIT as int), cfg.warp_strength as int)
}

/// The warped point: `v` moved by the noise offset and brought back to the
/// sphere (`v` itself should the offset cancel it).
pub open spec fn warp_spec(cfg: Config, v: Vec3, noise: Vec3) -> Vec3 {
    let moved = Vec3 {
        x: (v.x + warp_offset_spec(cfg, noise.x)) as i64,
        y: (v.y + warp_offset_spec(cfg, noise.y)) as i64,
        z: (v.z + warp_offset_spec(cfg, noise.z)) as i64,
    };
    match normalize_spec(moved) {
        Some(d) => d,
        None => v,
    }
}

fn warp_offset(cfg: &Config, n: i64) -> (r: i64)
    requires
        cfg.wf(),
    ensures
        r == warp_offset_spec(*cfg, n),
        -UNIT <= r <= UNIT,
{
    let c: i64 = clamp(n, -UNIT, UNIT);
    scale(c, cfg.warp_strength)
}

/// Domain warping: moves the direction `v` by the three warp noise samples
/// and renormalizes.
pub fn warp(cfg: &Config, v: Vec3, noise: Vec3) -> (r: Vec3)
    requires
        cfg.wf(),
        v.is_direction(),
    ensures
        r == warp_spec(*cfg, v, noise),
        r.is_direction(),
{
    let moved = Vec3 {
        x: v.x + warp_offset(cfg, noise.x),
        y: v.y + warp_offset(cfg, noise.y),
        z: v.z + warp_offset(cfg, noise.z),
    };
    match normalize(moved) {
        Some(d) => d,
        None => v,
    }
}

} // verus!
