//! Per-point synthesis of height and biome, and the pass over a vertex set.
use vstd::prelude::*;
use crate::fixed::{UNIT, clamp, clamp_spec, isqrt, is_isqrt, lemma_isqrt_monotonic, lemma_sqrt_exists, scale, scale_spec, sqrt_spec};
use crate::vector::{Vec3, lemma_dist_sq_nonneg};
use crate::config::Config;
use crate::plates::Plate;
use crate::partition::{lemma_partition_exists, nearest_two, nearest_spec, second_spec, plate_dist_sq, warp, warp_spec};
use crate::relief::{
    base_height, base_height_spec, classify, drift_between, drift_spec, interaction_spec,
    mountain_strength, mountain_strength_spec, relief, relief_bound, relief_spec, zone_weight,
    zone_weight_spec,
};
use crate::biome::{Biome, biome_for_height, biome_spec};

verus! {

/// The noise samples that a point needs, each in micro-units and nominally
/// within `[-1, 1]`; values outside are taken as the nearest end.
#[derive(Clone, Copy, Debug, PartialEq, Eq, Structural)]
pub struct NoiseSample {
    /// One sample per axis, for domain warping.
    pub warp: Vec3,
    /// High-frequency sample at the unwarped point, for mountain strength.
    pub mountain: i64,
    /// Low-frequency sample at the unwarped point, for roughness.
    pub detail: i64,
}

/// Height and biome of one point.
#[derive(Clone, Copy, Debug, PartialEq, Eq, Structural)]
pub struct ElevationSample {
    pub height: i64,
    pub biome: Biome,
}

/// Every plate's center and drift are directions.
pub open spec fn plates_are_directions(plates: Seq<Plate>) -> bool {
    forall|i: int| 0 <= i < plates.len() ==> (#[trigger] plates[i]).wf()
}

/// Difference of the distances from `w` to the second-nearest and to the
/// nearest plate center.
pub open spec fn boundary_dist_spec(w: Vec3, plates: Seq<Plate>) -> int {
    sqrt_spec(plate_dist_sq(w, plates, second_spec(w, plates))) - sqrt_spec(
        plate_dist_sq(w, plates, nearest_spec(w, plates)),
    )
}

/// Height of the plate logic at direction `v`, before the detail noise.
pub open spec fn plate_height_spec(cfg: Config, plates: Seq<Plate>, v: Vec3, noise: NoiseSample) -> int {
    let w = warp_spec(cfg, v, noise.warp);
    let owner = plates[nearest_spec(w, plates)];
    let h0 = base_height_spec(cfg, owner.plate_type);
    if plates.len() == 1 {
        h0
    } else {
        let neighbour = plates[second_spec(w, plates)];
        let bd = boundary_dist_spec(w, plates);
        if bd < cfg.edge_threshold {
            let kind = interaction_spec(
                owner.plate_type,
                neighbour.plate_type,
                drift_spec(cfg, owner.drift_dir, neighbour.drift_dir),
            );
            relief_spec(
                cfg,
                kind,
                h0,
                zone_weight_spec(cfg, bd),
                mountain_strength_spec(cfg, noise.mountain),
            )
        } else {
            h0
        }
    }
}

/// Final height at direction `v`: plate height plus detail noise, never below
/// the floor.
pub open spec fn height_spec(cfg: Config, plates: Seq<Plate>, v: Vec3, noise: NoiseSample) -> int {
    let h = plate_height_spec(cfg, plates, v, noise) + scale_spec(
        clamp_spec(noise.detail as int, -UNIT as int, UNIT as int),
        cfg.detail_amplitude as int,
    );
    if h < cfg.height_floor {
        cfg.height_floor as int
    } else {
        h
    }
}

/// Height and biome at direction `v`.
pub open spec fn sample_spec(cfg: Config, plates: Seq<Plate>, v: Vec3, noise: NoiseSample) -> ElevationSample {
    let h = height_spec(cfg, plates, v, noise);
    ElevationSample { height: h as i64, biome: biome_spec(h) }
}

/// Position of a vertex in direction `dir` raised by `height` above a sphere
/// of the configured radius.
pub open spec fn displace_spec(cfg: Config, dir: Vec3, height: int) -> Vec3 {
    let len = cfg.radius + height;
    Vec3 {
        x: scale_spec(dir.x as int, len) as i64,
        y: scale_spec(dir.y as int, len) as i64,
        z: scale_spec(dir.z as int, len) as i64,
    }
}

/// The samples of a sequence of directions, index by index.
pub open spec fn field_spec(
    cfg: Config,
    plates: Seq<Plate>,
    dirs: Seq<Vec3>,
    noise: Seq<NoiseSample>,
) -> Seq<ElevationSample> {
    Seq::new(dirs.len(), |i: int| sample_spec(cfg, plates, dirs[i], noise[i]))
}

proof fn lemma_chord_bound(n: int, r: int)
    requires
        0 <= n <= 12 * UNIT * UNIT,
        is_isqrt(n, r),
    ensures
        r <= 4 * UNIT,
{
    if r > 4 * UNIT {
        assert(r * r > 16 * UNIT * UNIT) by (nonlinear_arith)
            requires
                r > 4 * UNIT,
        ;
    }
}

/// Height and biome at direction `v`, given the noise samples of that point.
pub fn sample_point(cfg: &Config, plates: &Vec<Plate>, v: Vec3, noise: NoiseSample) -> (r: ElevationSample)
    requires
        cfg.wf(),
        v.is_direction(),
        plates@.len() >= 1,
        plates_are_directions(plates@),
    ensures
        r == sample_spec(*cfg, plates@, v, noise),
        r.height == height_spec(*cfg, plates@, v, noise),
        cfg.height_floor <= r.height <= relief_bound() + UNIT,
{
    let w: Vec3 = warp(cfg, v, noise.warp);
    let part = nearest_two(w, plates);
    let owner: Plate = plates[part.nearest];
    let h0: i64 = base_height(cfg, owner.plate_type);
    let h: i64 = match part.second {
        None => h0,
        Some(s) => {
            let neighbour: Plate = plates[s];
            let d1: i64 = isqrt(part.nearest_dist_sq as u64) as i64;
            let d2: i64 = isqrt(part.second_dist_sq as u64) as i64;
            proof {
                lemma_isqrt_monotonic(part.nearest_dist_sq as int, part.second_dist_sq as int, d1 as int, d2 as int);
                lemma_chord_bound(part.nearest_dist_sq as int, d1 as int);
                lemma_chord_bound(part.second_dist_sq as int, d2 as int);
            }
            let bd: i64 = d2 - d1;
            if bd < cfg.edge_threshold {
                let drift = drift_between(cfg, owner.drift_dir, neighbour.drift_dir);
                let kind = classify(owner.plate_type, neighbour.plate_type, drift);
                let f: i64 = zone_weight(cfg, bd);
                let m: i64 = mountain_strength(cfg, noise.mountain);
                relief(cfg, kind, h0, f, m)
            } else {
                h0
            }
        },
    };
    let detail: i64 = scale(clamp(noise.detail, -UNIT, UNIT), cfg.detail_amplitude);
    let raised: i64 = h + detail;
    let height: i64 = if raised < cfg.height_floor {
        cfg.height_floor
    } else {
        raised
    };
    ElevationSample { height, biome: biome_for_height(height) }
}

fn stretch(c: i64, len: i64) -> (r: i64)
    requires
        -UNIT <= c <= UNIT,
        0 <= len <= 2000 * UNIT,
    ensures
        r == scale_spec(c as int, len as int),
{
    let b: i64 = if c >= 0 { c } else { -c };
    assert(b * len <= UNIT * 2000 * UNIT) by (nonlinear_arith)
        requires
            0 <= b <= UNIT,
            0 <= len <= 2000 * UNIT,
    ;
    assert(b * len >= 0) by (nonlinear_arith)
        requires
            0 <= b,
            0 <= len,
    ;
    let q: i64 = b * len / UNIT;
    if c >= 0 {
        q
    } else {
        -q
    }
}

/// Position of the vertex in direction `dir` at height `height`:
/// `dir * (radius + height)`.
pub fn displace(cfg: &Config, dir: Vec3, height: i64) -> (r: Vec3)
    requires
        cfg.wf(),
        dir.is_direction(),
        cfg.height_floor <= height <= relief_bound() + UNIT,
    ensures
        r == displace_spec(*cfg, dir, height as int),
{
    let len: i64 = cfg.radius + height;
    Vec3 { x: stretch(dir.x, len), y: stretch(dir.y, len), z: stretch(dir.z, len) }
}

/// Runs the synthesis over a vertex set: for each direction, its sample and
/// its displaced position, in the same order.
pub fn apply_field(cfg: &Config, plates: &Vec<Plate>, dirs: &Vec<Vec3>, noise: &Vec<NoiseSample>) -> (r: (
    Vec<Vec3>,
    Vec<ElevationSample>,
))
    requires
        cfg.wf(),
        plates@.len() >= 1,
        plates_are_directions(plates@),
        noise@.len() == dirs@.len(),
        forall|i: int| 0 <= i < dirs@.len() ==> (#[trigger] dirs@[i]).is_direction(),
    ensures
        r.1@ == field_spec(*cfg, plates@, dirs@, noise@),
        r.0@.len() == dirs@.len(),
        forall|i: int|
            0 <= i < dirs@.len() ==> #[trigger] r.0@[i] == displace_spec(*cfg, dirs@[i], r.1@[i].height as int),
        forall|i: int| 0 <= i < dirs@.len() ==> (#[trigger] r.1@[i]).height >= cfg.height_floor,
{
    let mut positions: Vec<Vec3> = Vec::new();
    let mut samples: Vec<ElevationSample> = Vec::new();
    let mut i: usize = 0;
    while i < dirs.len()
        invariant
            cfg.wf(),
            plates@.len() >= 1,
            plates_are_directions(plates@),
            noise@.len() == dirs@.len(),
            forall|k: int| 0 <= k < dirs@.len() ==> (#[trigger] dirs@[k]).is_direction(),
            0 <= i <= dirs@.len(),
            samples@.len() == i,
            positions@.len() == i,
            forall|k: int|
                0 <= k < i ==> #[trigger] samples@[k] == sample_spec(*cfg, plates@, dirs@[k], noise@[k]),
            forall|k: int|
                0 <= k < i ==> #[trigger] positions@[k] == displace_spec(*cfg, dirs@[k], samples@[k].height as int),
            forall|k: int| 0 <= k < i ==> (#[trigger] samples@[k]).height >= cfg.height_floor,
        decreases dirs@.len() - i,
    {
        let s = sample_point(cfg, plates, dirs[i], noise[i]);
        let p = displace(cfg, dirs[i], s.height);
        samples.push(s);
        positions.push(p);
        i = i + 1;
    }
    assert(samples@ =~= field_spec(*cfg, plates@, dirs@, noise@));
    (positions, samples)
}

/// The partition orders chordal distances: the nearest plate's center is
/// no farther from the warped point than the second-nearest's, which is no
/// farther than any other plate's.
pub proof fn lemma_partition_distances(w: Vec3, plates: Seq<Plate>, k: int)
    requires
        plates.len() >= 2,
        0 <= k < plates.len(),
        k != nearest_spec(w, plates),
    ensures
        sqrt_spec(plate_dist_sq(w, plates, nearest_spec(w, plates))) <= sqrt_spec(
            plate_dist_sq(w, plates, second_spec(w, plates)),
        ),
        sqrt_spec(plate_dist_sq(w, plates, second_spec(w, plates))) <= sqrt_spec(
            plate_dist_sq(w, plates, k),
        ),
{
    lemma_partition_exists(w, plates);
    let n = nearest_spec(w, plates);
    let s = second_spec(w, plates);
    lemma_dist_sq_nonneg(w, plates[n].center);
    lemma_dist_sq_nonneg(w, plates[s].center);
    lemma_dist_sq_nonneg(w, plates[k].center);
    lemma_sqrt_exists(plate_dist_sq(w, plates, n));
    lemma_sqrt_exists(plate_dist_sq(w, plates, s));
    lemma_sqrt_exists(plate_dist_sq(w, plates, k));
    lemma_isqrt_monotonic(
        plate_dist_sq(w, plates, n),
        plate_dist_sq(w, plates, s),
        sqrt_spec(plate_dist_sq(w, plates, n)),
        sqrt_spec(plate_dist_sq(w, plates, s)),
    );
    lemma_isqrt_monotonic(
        plate_dist_sq(w, plates, s),
        plate_dist_sq(w, plates, k),
        sqrt_spec(plate_dist_sq(w, plates, s)),
        sqrt_spec(plate_dist_sq(w, plates, k)),
    );
}

/// The field is computed point by point: synthesizing two vertex sets one
/// after the other gives the samples of their concatenation, so chunks
/// synthesized apart agree with the whole wherever they share a point.
pub proof fn lemma_field_chunked(
    cfg: Config,
    plates: Seq<Plate>,
    dirs_a: Seq<Vec3>,
    noise_a: Seq<NoiseSample>,
    dirs_b: Seq<Vec3>,
    noise_b: Seq<NoiseSample>,
)
    requires
        noise_a.len() == dirs_a.len(),
        noise_b.len() == dirs_b.len(),
    ensures
        field_spec(cfg, plates, dirs_a + dirs_b, noise_a + noise_b) == field_spec(cfg, plates, dirs_a, noise_a)
            + field_spec(cfg, plates, dirs_b, noise_b),
{
    assert(field_spec(cfg, plates, dirs_a + dirs_b, noise_a + noise_b) =~= field_spec(cfg, plates, dirs_a, noise_a)
        + field_spec(cfg, plates, dirs_b, noise_b));
}

/// The sample of a point depends on its direction and noise alone: equal
/// inputs at two indices of a field give equal samples.
pub proof fn lemma_field_pointwise(
    cfg: Config,
    plates: Seq<Plate>,
    dirs: Seq<Vec3>,
    noise: Seq<NoiseSample>,
    i: int,
    j: int,
)
    requires
        noise.len() == dirs.len(),
        0 <= i < dirs.len(),
        0 <= j < dirs.len(),
        dirs[i] == dirs[j],
        noise[i] == noise[j],
    ensures
        field_spec(cfg, plates, dirs, noise)[i] == field_spec(cfg, plates, dirs, noise)[j],
{
}

} // verus!
