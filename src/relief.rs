//! The plate-interaction rule table: from plate pair, drift and distance to
//! the boundary, to elevation.
use vstd::prelude::*;
use crate::fixed::{UNIT, bump, bump_spec, clamp, clamp_spec, scale, scale_spec};
use crate::vector::{Vec3, dot, dot_spec};
use crate::config::{Config, is_level, is_weight};
use crate::plates::PlateType;

verus! {

/// Where the inland mountains of a subduction coast start, in zone weight.
pub const ARC_INLAND: i64 = 200_000;

/// How two plates move relative to each other.
#[derive(Clone, Copy, Debug, PartialEq, Eq, Structural)]
pub enum Drift {
    Convergent,
    Divergent,
    Neutral,
}

/// The feature that a plate boundary raises, by owner type, neighbour type
/// and drift.
#[derive(Clone, Copy, Debug, PartialEq, Eq, Structural)]
pub enum Interaction {
    /// No boundary feature: the base height of the owning plate.
    Interior,
    /// Two continents colliding: a mountain ridge.
    Orogeny,
    /// Two continents parting: a rift valley.
    Rift,
    /// A continent over a sinking ocean: coast pinned low, mountains inland.
    SubductionArc,
    /// A continent beside a still or receding ocean: a slope to the coast.
    ContinentalShelf,
    /// An ocean sinking under a continent: a trench.
    Trench,
    /// An ocean beside a receding continent: a deep shelf.
    PassiveShelf,
    /// An ocean beside a still continent: a shallow shelf.
    OceanShelf,
    /// Two oceans colliding: a chain of islands.
    IslandArc,
    /// Two oceans parting: a mid-ocean ridge.
    MidOceanRidge,
}

/// Drift regime of two plates from their drift directions: converging below
/// the collision threshold, diverging above the separation threshold.
pub open spec fn drift_spec(cfg: Config, a: Vec3, b: Vec3) -> Drift {
    let d = dot_spec(a, b);
    if d < cfg.collision_threshold * UNIT {
        Drift::Convergent
    } else if d > cfg.separation_threshold * UNIT {
        Drift::Divergent
    } else {
        Drift::Neutral
    }
}

/// The rule table.
pub open spec fn interaction_spec(owner: PlateType, neighbour: PlateType, drift: Drift) -> Interaction {
    match (owner, neighbour, drift) {
        (PlateType::Continental, PlateType::Continental, Drift::Convergent) => Interaction::Orogeny,
        (PlateType::Continental, PlateType::Continental, Drift::Divergent) => Interaction::Rift,
        (PlateType::Continental, PlateType::Continental, Drift::Neutral) => Interaction::Interior,
        (PlateType::Continental, PlateType::Oceanic, Drift::Convergent) => Interaction::SubductionArc,
        (PlateType::Continental, PlateType::Oceanic, _) => Interaction::ContinentalShelf,
        (PlateType::Oceanic, PlateType::Continental, Drift::Convergent) => Interaction::Trench,
        (PlateType::Oceanic, PlateType::Continental, Drift::Divergent) => Interaction::PassiveShelf,
        (PlateType::Oceanic, PlateType::Continental, Drift::Neutral) => Interaction::OceanShelf,
        (PlateType::Oceanic, PlateType::Oceanic, Drift::Convergent) => Interaction::IslandArc,
        (PlateType::Oceanic, PlateType::Oceanic, Drift::Divergent) => Interaction::MidOceanRidge,
        (PlateType::Oceanic, PlateType::Oceanic, Drift::Neutral) => Interaction::Interior,
    }
}

/// Base height of a plate: its owner's type alone sets it.
pub open spec fn base_height_spec(cfg: Config, t: PlateType) -> int {
    match t {
        PlateType::Continental => cfg.continental_base as int,
        PlateType::Oceanic => cfg.oceanic_base as int,
    }
}

/// Zone weight `clamp(1 - boundary_dist / edge_threshold, 0, 1)`: one unit on
/// the boundary, zero from the edge of the zone inwards.
pub open spec fn zone_weight_spec(cfg: Config, boundary_dist: int) -> int {
    clamp_spec(UNIT - boundary_dist * UNIT / (cfg.edge_threshold as int), 0, UNIT as int)
}

/// Mountain strength from the mountain noise (taken within `[-1, 1]`):
/// `bias + gain * noise`, never below zero so ridges never turn to canyons.
pub open spec fn mountain_strength_spec(cfg: Config, noise: i64) -> int {
    let s = cfg.mountain_bias + scale_spec(clamp_spec(noise as int, -UNIT as int, UNIT as int), cfg.mountain_gain as int);
    if s < 0 {
        0
    } else {
        s
    }
}

/// `f^2` in fixed point.
pub open spec fn square_spec(f: int) -> int {
    scale_spec(f, f)
}

/// `f^3` in fixed point.
pub open spec fn cube_spec(f: int) -> int {
    scale_spec(square_spec(f), f)
}

/// `f^4` in fixed point.
pub open spec fn fourth_spec(f: int) -> int {
    scale_spec(cube_spec(f), f)
}

/// Collision of continents: `f^4 * main + fold(f) * f * secondary`, times the
/// mountain strength, where the fold is `sin^2(pi f)`.
pub open spec fn orogeny_spec(cfg: Config, h0: int, f: int, m: int) -> int {
    let fold = scale_spec(bump_spec(f), bump_spec(f));
    let ridge = scale_spec(cfg.main_ridge as int, fourth_spec(f)) + scale_spec(
        cfg.secondary_ridge as int,
        scale_spec(fold, f),
    );
    h0 + scale_spec(ridge, m)
}

/// Parting continents: `h0 - f^2 * depth`.
pub open spec fn rift_spec(cfg: Config, h0: int, f: int) -> int {
    h0 - scale_spec(cfg.rift_depth as int, square_spec(f))
}

/// The inland band of a subduction coast, in zone weight.
pub open spec fn arc_zone_spec(f: int) -> int {
    clamp_spec(2 * (f - ARC_INLAND), 0, UNIT as int)
}

/// Subduction under a continent: `h0 * (1 - f^3)` plus an inland mountain
/// range `sin^2(pi z)`, times arc height and mountain strength.
pub open spec fn subduction_spec(cfg: Config, h0: int, f: int, m: int) -> int {
    let z = arc_zone_spec(f);
    let shape = scale_spec(bump_spec(z), bump_spec(z));
    scale_spec(h0, UNIT - cube_spec(f)) + scale_spec(scale_spec(cfg.arc_height as int, shape), m)
}

/// Ocean sinking under a continent: `h0 * (1 - f^3) - sin(pi f) * depth`.
pub open spec fn trench_spec(cfg: Config, h0: int, f: int) -> int {
    scale_spec(h0, UNIT - cube_spec(f)) - scale_spec(cfg.trench_depth as int, bump_spec(f))
}

/// Blend from `h0` toward `target` with weight `f^2`.
pub open spec fn shelf_spec(h0: int, target: int, f: int) -> int {
    h0 + scale_spec(target - h0, square_spec(f))
}

/// Oceans colliding: `f^3 sin(pi f)`, times arc height and mountain strength.
pub open spec fn island_arc_spec(cfg: Config, h0: int, f: int, m: int) -> int {
    h0 + scale_spec(scale_spec(cfg.island_arc as int, scale_spec(cube_spec(f), bump_spec(f))), m)
}

/// Oceans parting: `f^2`, times ridge height and mountain strength.
pub open spec fn mid_ocean_spec(cfg: Config, h0: int, f: int, m: int) -> int {
    h0 + scale_spec(scale_spec(cfg.mid_ocean_ridge as int, square_spec(f)), m)
}

/// Height of a point of the owning plate with base `h0`, zone weight `f` and
/// mountain strength `m`, under the given boundary feature.
pub open spec fn relief_spec(cfg: Config, kind: Interaction, h0: int, f: int, m: int) -> int {
    match kind {
        Interaction::Interior => h0,
        Interaction::Orogeny => orogeny_spec(cfg, h0, f, m),
        Interaction::Rift => rift_spec(cfg, h0, f),
        Interaction::SubductionArc => subduction_spec(cfg, h0, f, m),
        Interaction::ContinentalShelf => shelf_spec(h0, cfg.coastal_shelf as int, f),
        Interaction::Trench => trench_spec(cfg, h0, f),
        Interaction::PassiveShelf => shelf_spec(h0, cfg.passive_shelf as int, f),
        Interaction::OceanShelf => shelf_spec(h0, cfg.ocean_shelf as int, f),
        Interaction::IslandArc => island_arc_spec(cfg, h0, f, m),
        Interaction::MidOceanRidge => mid_ocean_spec(cfg, h0, f, m),
    }
}

/// Bound on any height before the detail noise.
pub open spec fn relief_bound() -> int {
    10 * UNIT
}

/// At full zone weight the powers of the weight are full and the bump is
/// flat.
pub proof fn lemma_full_weight()
    ensures
        bump_spec(UNIT as int) == 0,
        square_spec(UNIT as int) == UNIT,
        cube_spec(UNIT as int) == UNIT,
        fourth_spec(UNIT as int) == UNIT,
{
    let s = UNIT as int;
    assert(s * (s - s) == 0);
    assert(scale_spec(s, s) == s) by (nonlinear_arith)
        requires
            s == 1_000_000,
    ;
}

/// The drift regime of two plates.
pub fn drift_between(cfg: &Config, a: Vec3, b: Vec3) -> (r: Drift)
    requires
        cfg.wf(),
        a.is_direction(),
        b.is_direction(),
    ensures
        r == drift_spec(*cfg, a, b),
{
    let d: i64 = dot(a, b);
    if d < cfg.collision_threshold * UNIT {
        Drift::Convergent
    } else if d > cfg.separation_threshold * UNIT {
        Drift::Divergent
    } else {
        Drift::Neutral
    }
}

/// Looks a plate pair and drift up in the rule table.
pub fn classify(owner: PlateType, neighbour: PlateType, drift: Drift) -> (r: Interaction)
    ensures
        r == interaction_spec(owner, neighbour, drift),
{
    match (owner, neighbour, drift) {
        (PlateType::Continental, PlateType::Continental, Drift::Convergent) => Interaction::Orogeny,
        (PlateType::Continental, PlateType::Continental, Drift::Divergent) => Interaction::Rift,
        (PlateType::Continental, PlateType::Continental, Drift::Neutral) => Interaction::Interior,
        (PlateType::Continental, PlateType::Oceanic, Drift::Convergent) => Interaction::SubductionArc,
        (PlateType::Continental, PlateType::Oceanic, _) => Interaction::ContinentalShelf,
        (PlateType::Oceanic, PlateType::Continental, Drift::Convergent) => Interaction::Trench,
        (PlateType::Oceanic, PlateType::Continental, Drift::Divergent) => Interaction::PassiveShelf,
        (PlateType::Oceanic, PlateType::Continental, Drift::Neutral) => Interaction::OceanShelf,
        (PlateType::Oceanic, PlateType::Oceanic, Drift::Convergent) => Interaction::IslandArc,
        (PlateType::Oceanic, PlateType::Oceanic, Drift::Divergent) => Interaction::MidOceanRidge,
        (PlateType::Oceanic, PlateType::Oceanic, Drift::Neutral) => Interaction::Interior,
    }
}

/// The base height of a plate type.
pub fn base_height(cfg: &Config, t: PlateType) -> (r: i64)
    requires
        cfg.wf(),
    ensures
        r == base_height_spec(*cfg, t),
        is_level(r),
{
    match t {
        PlateType::Continental => cfg.continental_base,
        PlateType::Oceanic => cfg.oceanic_base,
    }
}

/// The zone weight of a boundary distance.
pub fn zone_weight(cfg: &Config, boundary_dist: i64) -> (r: i64)
    requires
        cfg.wf(),
        0 <= boundary_dist <= 4 * UNIT,
    ensures
        r == zone_weight_spec(*cfg, boundary_dist as int),
        is_weight(r),
        boundary_dist == 0 ==> r == UNIT,
        boundary_dist >= cfg.edge_threshold ==> r == 0,
{
    assert(boundary_dist * UNIT / (cfg.edge_threshold as int) >= 0) by (nonlinear_arith)
        requires
            boundary_dist >= 0,
            cfg.edge_threshold > 0,
    ;
    assert(boundary_dist >= cfg.edge_threshold ==> boundary_dist * UNIT / (cfg.edge_threshold as int) >= UNIT) by (nonlinear_arith)
        requires
            cfg.edge_threshold > 0,
    ;
    let q: i64 = boundary_dist * UNIT / cfg.edge_threshold;
    clamp(UNIT - q, 0, UNIT)
}

/// The mountain strength of a mountain noise sample.
pub fn mountain_strength(cfg: &Config, noise: i64) -> (r: i64)
    requires
        cfg.wf(),
    ensures
        r == mountain_strength_spec(*cfg, noise),
        0 <= r <= 3 * UNIT,
{
    let n: i64 = clamp(noise, -UNIT, UNIT);
    let s: i64 = cfg.mountain_bias + scale(n, cfg.mountain_gain);
    if s < 0 {
        0
    } else {
        s
    }
}

fn powers(f: i64) -> (r: (i64, i64, i64))
    requires
        is_weight(f),
    ensures
        r.0 == square_spec(f as int),
        r.1 == cube_spec(f as int),
        r.2 == fourth_spec(f as int),
        is_weight(r.0),
        is_weight(r.1),
        is_weight(r.2),
{
    let f2: i64 = scale(f, f);
    let f3: i64 = scale(f2, f);
    let f4: i64 = scale(f3, f);
    (f2, f3, f4)
}

/// Ridge where two continents collide.
pub fn orogeny(cfg: &Config, h0: i64, f: i64, m: i64) -> (r: i64)
    requires
        cfg.wf(),
        is_level(h0),
        is_weight(f),
        0 <= m <= 3 * UNIT,
    ensures
        r == orogeny_spec(*cfg, h0 as int, f as int, m as int),
        h0 <= r <= h0 + 8 * UNIT,
        f == UNIT ==> r == h0 + scale_spec(cfg.main_ridge as int, m as int),
{
    let (_f2, _f3, f4) = powers(f);
    let b: i64 = bump(f);
    proof {
        if f == UNIT {
            lemma_full_weight();
            assert(scale_spec(0, f as int) == 0);
            assert(scale_spec(cfg.secondary_ridge as int, 0) == 0) by (nonlinear_arith)
                requires
                    cfg.secondary_ridge >= 0,
            ;
            assert(scale_spec(cfg.main_ridge as int, UNIT as int) == cfg.main_ridge) by (nonlinear_arith)
                requires
                    cfg.main_ridge >= 0,
            ;
        }
    }
    let fold: i64 = scale(b, b);
    let ridge: i64 = scale(cfg.main_ridge, f4) + scale(cfg.secondary_ridge, scale(fold, f));
    h0 + scale(ridge, m)
}

/// Rift where two continents part.
pub fn rift(cfg: &Config, h0: i64, f: i64) -> (r: i64)
    requires
        cfg.wf(),
        is_level(h0),
        is_weight(f),
    ensures
        r == rift_spec(*cfg, h0 as int, f as int),
        h0 - UNIT <= r <= h0,
{
    let (f2, _f3, _f4) = powers(f);
    h0 - scale(cfg.rift_depth, f2)
}

/// Subduction coast of a continent.
pub fn subduction(cfg: &Config, h0: i64, f: i64, m: i64) -> (r: i64)
    requires
        cfg.wf(),
        is_level(h0),
        is_weight(f),
        0 <= m <= 3 * UNIT,
    ensures
        r == subduction_spec(*cfg, h0 as int, f as int, m as int),
        -UNIT <= r <= 5 * UNIT,
{
    let (_f2, f3, _f4) = powers(f);
    let z: i64 = clamp(2 * (f - ARC_INLAND), 0, UNIT);
    let b: i64 = bump(z);
    let shape: i64 = scale(b, b);
    scale(h0, UNIT - f3) + scale(scale(cfg.arc_height, shape), m)
}

/// Trench off a subduction coast, on the ocean side.
pub fn trench(cfg: &Config, h0: i64, f: i64) -> (r: i64)
    requires
        cfg.wf(),
        is_level(h0),
        is_weight(f),
    ensures
        r == trench_spec(*cfg, h0 as int, f as int),
        -2 * UNIT <= r <= UNIT,
{
    let (_f2, f3, _f4) = powers(f);
    scale(h0, UNIT - f3) - scale(cfg.trench_depth, bump(f))
}

/// Shelf blend toward `target`.
pub fn shelf(h0: i64, target: i64, f: i64) -> (r: i64)
    requires
        is_level(h0),
        is_level(target),
        is_weight(f),
    ensures
        r == shelf_spec(h0 as int, target as int, f as int),
        -3 * UNIT <= r <= 3 * UNIT,
{
    let (f2, _f3, _f4) = powers(f);
    h0 + scale(target - h0, f2)
}

/// Island arc where two oceans collide.
pub fn island_arc(cfg: &Config, h0: i64, f: i64, m: i64) -> (r: i64)
    requires
        cfg.wf(),
        is_level(h0),
        is_weight(f),
        0 <= m <= 3 * UNIT,
    ensures
        r == island_arc_spec(*cfg, h0 as int, f as int, m as int),
        h0 <= r <= h0 + 4 * UNIT,
{
    let (_f2, f3, _f4) = powers(f);
    h0 + scale(scale(cfg.island_arc, scale(f3, bump(f))), m)
}

/// Mid-ocean ridge where two oceans part.
pub fn mid_ocean(cfg: &Config, h0: i64, f: i64, m: i64) -> (r: i64)
    requires
        cfg.wf(),
        is_level(h0),
        is_weight(f),
        0 <= m <= 3 * UNIT,
    ensures
        r == mid_ocean_spec(*cfg, h0 as int, f as int, m as int),
        h0 <= r <= h0 + 4 * UNIT,
{
    let (f2, _f3, _f4) = powers(f);
    h0 + scale(scale(cfg.mid_ocean_ridge, f2), m)
}

/// Dispatches a boundary feature to its rule.
pub fn relief(cfg: &Config, kind: Interaction, h0: i64, f: i64, m: i64) -> (r: i64)
    requires
        cfg.wf(),
        is_level(h0),
        is_weight(f),
        0 <= m <= 3 * UNIT,
    ensures
        r == relief_spec(*cfg, kind, h0 as int, f as int, m as int),
        -relief_bound() <= r <= relief_bound(),
{
    match kind {
        Interaction::Interior => h0,
        Interaction::Orogeny => orogeny(cfg, h0, f, m),
        Interaction::Rift => rift(cfg, h0, f),
        Interaction::SubductionArc => subduction(cfg, h0, f, m),
        Interaction::ContinentalShelf => shelf(h0, cfg.coastal_shelf, f),
        Interaction::Trench => trench(cfg, h0, f),
        Interaction::PassiveShelf => shelf(h0, cfg.passive_shelf, f),
        Interaction::OceanShelf => shelf(h0, cfg.ocean_shelf, f),
        Interaction::IslandArc => island_arc(cfg, h0, f, m),
        Interaction::MidOceanRidge => mid_ocean(cfg, h0, f, m),
    }
}

} // verus!
