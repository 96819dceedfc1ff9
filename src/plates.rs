//! Plate generation: rejection sampling of well-separated plate centers.
use vstd::prelude::*;
use rand::rngs::StdRng;
use rand::{Rng, SeedableRng};
use crate::fixed::{UNIT, is_isqrt, lemma_isqrt_monotonic, lemma_sqrt_exists, sqrt_spec};
use crate::vector::{Vec3, dist_sq, dist_sq_spec, lemma_dist_sq_symmetric, normalize, normalize_spec};
use crate::config::Config;

verus! {

#[verifier::external_type_specification]
#[verifier::external_body]
pub struct ExStdRng(StdRng);

/// Relies on `rand::SeedableRng::seed_from_u64` for `StdRng`: a generator
/// whose stream is fixed by the seed.
#[verifier::external_body]
fn seeded_rng(seed: u64) -> StdRng {
    StdRng::seed_from_u64(seed)
}

/// Relies on `rand::Rng::random_range` over an inclusive range: a value in
/// `[lo, hi]`; the range may not be empty.
#[verifier::external_body]
fn draw_between(rng: &mut StdRng, lo: i64, hi: i64) -> (r: i64)
    requires
        lo <= hi,
    ensures
        lo <= r <= hi,
{
    rng.random_range(lo..=hi)
}

/// Relies on `rand::Rng::random_ratio`: `true` with chance
/// `numerator / denominator`, never for a zero numerator, always when the two
/// are equal; the denominator may not be zero nor below the numerator.
#[verifier::external_body]
fn draw_ratio(rng: &mut StdRng, numerator: u32, denominator: u32) -> (r: bool)
    requires
        0 < denominator,
        numerator <= denominator,
    ensures
        numerator == 0 ==> !r,
        numerator == denominator ==> r,
{
    rng.random_ratio(numerator, denominator)
}

/// The two kinds of plate.
#[derive(Clone, Copy, Debug, PartialEq, Eq, Structural)]
pub enum PlateType {
    Oceanic,
    Continental,
}

/// A plate: where it is centered, its kind and the direction it drifts in.
#[derive(Clone, Copy, Debug, PartialEq, Eq, Structural)]
pub struct Plate {
    pub center: Vec3,
    pub plate_type: PlateType,
    pub drift_dir: Vec3,
}

impl Plate {
    /// Center and drift are directions.
    pub open spec fn wf(&self) -> bool {
        self.center.is_direction() && self.drift_dir.is_direction()
    }
}

/// A candidate plate as drawn: raw center and drift vectors, not yet
/// normalized, and whether the plate came out continental.
#[derive(Clone, Copy, Debug, PartialEq, Eq, Structural)]
pub struct PlateDraw {
    pub center: Vec3,
    pub continental: bool,
    pub drift: Vec3,
}

/// Why generation produced no plate set.
#[derive(Clone, Copy, Debug, PartialEq, Eq, Structural)]
pub enum GenerationError {
    /// The plates cannot fit at the asked separation.
    Infeasible,
    /// The draw budget ran out before every plate was placed.
    Exhausted,
}

/// Every two plates are at least `sep` apart.
pub open spec fn well_separated(plates: Seq<Plate>, sep: int) -> bool {
    forall|i: int, j: int|
        0 <= i < plates.len() && 0 <= j < plates.len() && i != j ==> dist_sq_spec(
            #[trigger] plates[i].center,
            #[trigger] plates[j].center,
        ) >= sep * sep
}

/// Every plate is well formed and every two are at least `sep` apart.
pub open spec fn plates_wf(plates: Seq<Plate>, sep: int) -> bool {
    (forall|i: int| 0 <= i < plates.len() ==> (#[trigger] plates[i]).wf()) && well_separated(
        plates,
        sep,
    )
}

/// In a well-formed plate set every two centers are at least `sep` apart in
/// chordal distance.
pub proof fn lemma_separation_distance(plates: Seq<Plate>, sep: int, i: int, j: int)
    requires
        plates_wf(plates, sep),
        sep >= 0,
        0 <= i < plates.len(),
        0 <= j < plates.len(),
        i != j,
    ensures
        sqrt_spec(dist_sq_spec(plates[i].center, plates[j].center)) >= sep,
{
    let d = dist_sq_spec(plates[i].center, plates[j].center);
    assert(d >= sep * sep);
    assert(is_isqrt(sep * sep, sep)) by (nonlinear_arith)
        requires
            sep >= 0,
    ;
    lemma_sqrt_exists(d);
    lemma_isqrt_monotonic(sep * sep, d, sep, sqrt_spec(d));
}

/// `c` is at least `sep` away from every plate center.
pub open spec fn clear_of(plates: Seq<Plate>, c: Vec3, sep: int) -> bool {
    forall|i: int| 0 <= i < plates.len() ==> dist_sq_spec(#[trigger] plates[i].center, c) >= sep * sep
}

/// The plate that a draw stands for, if both of its vectors have a direction.
pub open spec fn candidate_spec(d: PlateDraw) -> Option<Plate> {
    match (normalize_spec(d.center), normalize_spec(d.drift)) {
        (Some(c), Some(v)) => Some(
            Plate {
                center: c,
                plate_type: if d.continental {
                    PlateType::Continental
                } else {
                    PlateType::Oceanic
                },
                drift_dir: v,
            },
        ),
        _ => None,
    }
}

/// Whether `c` is at least `sep` away from every plate center.
pub fn is_clear(plates: &Vec<Plate>, c: Vec3, sep: i64) -> (r: bool)
    requires
        forall|i: int| 0 <= i < plates@.len() ==> (#[trigger] plates@[i]).wf(),
        c.is_direction(),
        0 <= sep <= 2 * UNIT,
    ensures
        r == clear_of(plates@, c, sep as int),
{
    assert(sep * sep <= 4 * UNIT * UNIT) by (nonlinear_arith)
        requires
            0 <= sep <= 2 * UNIT,
    ;
    let sep_sq: i64 = sep * sep;
    let mut i: usize = 0;
    while i < plates.len()
        invariant
            forall|k: int| 0 <= k < plates@.len() ==> (#[trigger] plates@[k]).wf(),
            c.is_direction(),
            sep_sq == sep * sep,
            0 <= i <= plates@.len(),
            forall|k: int| 0 <= k < i ==> dist_sq_spec(#[trigger] plates@[k].center, c) >= sep_sq,
        decreases plates@.len() - i,
    {
        if dist_sq(plates[i].center, c) < sep_sq {
            return false;
        }
        i = i + 1;
    }
    true
}

/// Adds the plate that `draw` stands for when it is clear of every plate
/// already placed; reports whether it was added.
pub fn offer_plate(plates: &mut Vec<Plate>, draw: PlateDraw, sep: i64) -> (r: bool)
    requires
        plates_wf(old(plates)@, sep as int),
        draw.center.is_bounded(),
        draw.drift.is_bounded(),
        0 <= sep <= 2 * UNIT,
    ensures
        plates_wf(final(plates)@, sep as int),
        r == (candidate_spec(draw) matches Some(p) && clear_of(old(plates)@, p.center, sep as int)),
        r ==> final(plates)@ == old(plates)@.push(candidate_spec(draw).unwrap()),
        !r ==> final(plates)@ == old(plates)@,
{
    let center = match normalize(draw.center) {
        Some(c) => c,
        None => {
            return false;
        },
    };
    let drift_dir = match normalize(draw.drift) {
        Some(v) => v,
        None => {
            return false;
        },
    };
    if !is_clear(plates, center, sep) {
        return false;
    }
    let plate_type = if draw.continental {
        PlateType::Continental
    } else {
        PlateType::Oceanic
    };
    let ghost before = plates@;
    plates.push(Plate { center, plate_type, drift_dir });
    proof {
        let s = plates@;
        assert forall|i: int, j: int|
            0 <= i < s.len() && 0 <= j < s.len() && i != j implies dist_sq_spec(
            #[trigger] s[i].center,
            #[trigger] s[j].center,
        ) >= sep * sep by {
            if i == before.len() {
                lemma_dist_sq_symmetric(s[i].center, s[j].center);
            }
        }
    }
    true
}

/// Whether the plates fit at the asked separation.
pub fn is_feasible(cfg: &Config) -> (r: bool)
    requires
        cfg.wf(),
    ensures
        r == cfg.is_feasible(),
{
    let count: i64 = cfg.plate_count as i64;
    assert(count * cfg.min_separation <= 4096 * 2_000_000) by (nonlinear_arith)
        requires
            0 <= count <= 4096,
            0 <= cfg.min_separation <= 2_000_000,
    ;
    assert(count * cfg.min_separation * cfg.min_separation <= 4096 * 2_000_000 * 2_000_000) by (nonlinear_arith)
        requires
            0 <= count * cfg.min_separation <= 4096 * 2_000_000,
            0 <= cfg.min_separation <= 2_000_000,
    ;
    count * cfg.min_separation * cfg.min_separation <= 6 * UNIT * UNIT
}

/// Draws one candidate plate: a center and a drift vector, each uniform in
/// the cube `[-1, 1]^3`, and a kind, continental with chance
/// `permille / 1000`.
pub fn draw_plate(rng: &mut StdRng, permille: u32) -> (r: PlateDraw)
    requires
        permille <= 1000,
    ensures
        r.center.is_direction(),
        r.drift.is_direction(),
        permille == 0 ==> !r.continental,
        permille == 1000 ==> r.continental,
{
    let cx: i64 = draw_between(rng, -UNIT, UNIT);
    let cy: i64 = draw_between(rng, -UNIT, UNIT);
    let cz: i64 = draw_between(rng, -UNIT, UNIT);
    let continental: bool = draw_ratio(rng, permille, 1000);
    let dx: i64 = draw_between(rng, -UNIT, UNIT);
    let dy: i64 = draw_between(rng, -UNIT, UNIT);
    let dz: i64 = draw_between(rng, -UNIT, UNIT);
    PlateDraw {
        center: Vec3 { x: cx, y: cy, z: cz },
        continental,
        drift: Vec3 { x: dx, y: dy, z: dz },
    }
}

/// Generates the plate set of a seeded planet: candidates are drawn one
/// after another and kept when clear of the plates already placed, until the
/// asked count is reached or the draw budget is spent.
pub fn generate_plates(cfg: &Config, seed: u64) -> (r: Result<Vec<Plate>, GenerationError>)
    requires
        cfg.wf(),
    ensures
        (r == Err::<Vec<Plate>, GenerationError>(GenerationError::Infeasible)) <==> !cfg.is_feasible(),
        r matches Ok(v) ==> v@.len() == cfg.plate_count && plates_wf(v@, cfg.min_separation as int),
{
    if !is_feasible(cfg) {
        return Err(GenerationError::Infeasible);
    }
    let mut rng = seeded_rng(seed);
    let mut plates: Vec<Plate> = Vec::new();
    let mut drawn: u64 = 0;
    while (plates.len() as u64) < cfg.plate_count && drawn < cfg.max_draws
        invariant
            cfg.wf(),
            plates_wf(plates@, cfg.min_separation as int),
            plates@.len() <= cfg.plate_count,
        decreases cfg.max_draws - drawn,
    {
        let draw = draw_plate(&mut rng, cfg.continental_permille);
        offer_plate(&mut plates, draw, cfg.min_separation);
        drawn = drawn + 1;
    }
    if (plates.len() as u64) < cfg.plate_count {
        Err(GenerationError::Exhausted)
    } else {
        Ok(plates)
    }
}

} // verus!
