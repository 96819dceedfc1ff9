//! Tuning of the planet generator, all in micro-units unless noted.
use vstd::prelude::*;
use crate::fixed::UNIT;

verus! {

/// Largest plate count that a configuration may ask for.
pub const MAX_PLATES: u64 = 4096;

/// Packing limit: `plate_count * min_separation^2` may not exceed this many
/// square units. Disjoint caps around the centers would need
/// `count * sep^2 <= 16`; the margin keeps rejection sampling fast.
pub const PACKING_LIMIT: i64 = 6;

/// Every constant of the generator.
#[derive(Clone, Copy, Debug, PartialEq, Eq, Structural)]
pub struct Config {
    /// Radius of the undisplaced sphere.
    pub radius: i64,
    /// Number of plates.
    pub plate_count: u64,
    /// Chance, in thousandths, that a plate is continental.
    pub continental_permille: u32,
    /// Least chordal distance between two plate centers.
    pub min_separation: i64,
    /// Most candidate plates drawn before generation gives up.
    pub max_draws: u64,
    /// Frequency at which the warp noise is sampled.
    pub warp_frequency: i64,
    /// Frequency at which the mountain noise is sampled.
    pub mountain_frequency: i64,
    /// Frequency at which the detail noise is sampled.
    pub detail_frequency: i64,
    /// Length of the warp offset per unit of noise.
    pub warp_strength: i64,
    /// Width of the boundary zone, in boundary distance.
    pub edge_threshold: i64,
    /// Drift dot products below this make plates converge.
    pub collision_threshold: i64,
    /// Drift dot products above this make plates diverge.
    pub separation_threshold: i64,
    /// Base height of a continental plate.
    pub continental_base: i64,
    /// Base height of an oceanic plate.
    pub oceanic_base: i64,
    /// Height of the main ridge where two continents collide.
    pub main_ridge: i64,
    /// Height of the folded foothills where two continents collide.
    pub secondary_ridge: i64,
    /// Depth of a rift between two diverging continents.
    pub rift_depth: i64,
    /// Height of the mountains inland of a subduction coast.
    pub arc_height: i64,
    /// Depth of a trench off a subduction coast.
    pub trench_depth: i64,
    /// Height of an island arc where two oceans converge.
    pub island_arc: i64,
    /// Height of a mid-ocean ridge where two oceans diverge.
    pub mid_ocean_ridge: i64,
    /// Height that a continent falls to at an oceanic coast.
    pub coastal_shelf: i64,
    /// Height that an ocean rises to beside a neutral continent.
    pub ocean_shelf: i64,
    /// Height that an ocean rises to beside a receding continent.
    pub passive_shelf: i64,
    /// Mountain strength when the mountain noise is zero.
    pub mountain_bias: i64,
    /// Mountain strength per unit of mountain noise.
    pub mountain_gain: i64,
    /// Height of the roughness noise per unit of noise.
    pub detail_amplitude: i64,
    /// Lowest height a point may have.
    pub height_floor: i64,
}

/// `x` lies in `[0, UNIT]`.
pub open spec fn is_weight(x: i64) -> bool {
    0 <= x <= UNIT
}

/// `x` lies in `[-UNIT, UNIT]`.
pub open spec fn is_level(x: i64) -> bool {
    -UNIT <= x <= UNIT
}

fn weight(x: i64) -> (r: bool)
    ensures
        r == is_weight(x),
{
    0 <= x && x <= UNIT
}

fn level(x: i64) -> (r: bool)
    ensures
        r == is_level(x),
{
    -UNIT <= x && x <= UNIT
}

impl Config {
    /// The constants lie where the arithmetic of the generator stays exact.
    pub open spec fn wf(&self) -> bool {
        &&& UNIT <= self.radius <= 1000 * UNIT
        &&& 1 <= self.plate_count <= MAX_PLATES
        &&& self.continental_permille <= 1000
        &&& 0 <= self.min_separation <= 2 * UNIT
        &&& 0 < self.edge_threshold <= UNIT
        &&& 0 <= self.warp_strength <= UNIT
        &&& -UNIT <= self.collision_threshold <= self.separation_threshold <= UNIT
        &&& is_level(self.continental_base)
        &&& is_level(self.oceanic_base)
        &&& is_weight(self.main_ridge)
        &&& is_weight(self.secondary_ridge)
        &&& is_weight(self.rift_depth)
        &&& is_weight(self.arc_height)
        &&& is_weight(self.trench_depth)
        &&& is_weight(self.island_arc)
        &&& is_weight(self.mid_ocean_ridge)
        &&& is_level(self.coastal_shelf)
        &&& is_level(self.ocean_shelf)
        &&& is_level(self.passive_shelf)
        &&& is_weight(self.mountain_bias)
        &&& 0 <= self.mountain_gain <= 2 * UNIT
        &&& is_weight(self.detail_amplitude)
        &&& -UNIT <= self.height_floor <= 0
    }

    /// Whether the constants lie where the arithmetic of the generator stays
    /// exact.
    pub fn is_valid(&self) -> (r: bool)
        ensures
            r == self.wf(),
    {
        UNIT <= self.radius && self.radius <= 1000 * UNIT && 1 <= self.plate_count
            && self.plate_count <= MAX_PLATES && self.continental_permille <= 1000
            && 0 <= self.min_separation && self.min_separation <= 2 * UNIT && 0 < self.edge_threshold
            && self.edge_threshold <= UNIT && 0 <= self.warp_strength && self.warp_strength <= UNIT
            && -UNIT <= self.collision_threshold && self.collision_threshold
            <= self.separation_threshold && self.separation_threshold <= UNIT && level(
            self.continental_base,
        ) && level(self.oceanic_base) && weight(self.main_ridge) && weight(self.secondary_ridge)
            && weight(self.rift_depth) && weight(self.arc_height) && weight(self.trench_depth)
            && weight(self.island_arc) && weight(self.mid_ocean_ridge) && level(self.coastal_shelf)
            && level(self.ocean_shelf) && level(self.passive_shelf) && weight(self.mountain_bias)
            && 0 <= self.mountain_gain && self.mountain_gain <= 2 * UNIT && weight(
            self.detail_amplitude,
        ) && -UNIT <= self.height_floor && self.height_floor <= 0
    }

    /// The plate count and separation leave room for the plates.
    pub open spec fn is_feasible(&self) -> bool {
        self.plate_count * self.min_separation * self.min_separation <= PACKING_LIMIT * UNIT
            * UNIT
    }

    /// The standard planet: radius 30, fifteen plates, 40% continental.
    pub open spec fn standard_spec() -> Config {
        Config {
            radius: 30_000_000i64,
            plate_count: 15u64,
            continental_permille: 400u32,
            min_separation: 300_000i64,
            max_draws: 100_000u64,
            warp_frequency: 1_500_000i64,
            mountain_frequency: 15_000_000i64,
            detail_frequency: 4_000_000i64,
            warp_strength: 150_000i64,
            edge_threshold: 450_000i64,
            collision_threshold: -200_000i64,
            separation_threshold: 200_000i64,
            continental_base: 120_000i64,
            oceanic_base: -350_000i64,
            main_ridge: 400_000i64,
            secondary_ridge: 150_000i64,
            rift_depth: 300_000i64,
            arc_height: 300_000i64,
            trench_depth: 250_000i64,
            island_arc: 500_000i64,
            mid_ocean_ridge: 200_000i64,
            coastal_shelf: -50_000i64,
            ocean_shelf: -100_000i64,
            passive_shelf: -200_000i64,
            mountain_bias: 600_000i64,
            mountain_gain: 1_200_000i64,
            detail_amplitude: 350_000i64,
            height_floor: -900_000i64,
        }
    }

    /// The standard planet: radius 30, fifteen plates, 40% continental.
    pub fn standard() -> (r: Config)
        ensures
            r == Config::standard_spec(),
            r.wf(),
            r.is_feasible(),
    {
        Config {
            radius: 30_000_000,
            plate_count: 15,
            continental_permille: 400,
            min_separation: 300_000,
            max_draws: 100_000,
            warp_frequency: 1_500_000,
            mountain_frequency: 15_000_000,
            detail_frequency: 4_000_000,
            warp_strength: 150_000,
            edge_threshold: 450_000,
            collision_threshold: -200_000,
            separation_threshold: 200_000,
            continental_base: 120_000,
            oceanic_base: -350_000,
            main_ridge: 400_000,
            secondary_ridge: 150_000,
            rift_depth: 300_000,
            arc_height: 300_000,
            trench_depth: 250_000,
            island_arc: 500_000,
            mid_ocean_ridge: 200_000,
            coastal_shelf: -50_000,
            ocean_shelf: -100_000,
            passive_shelf: -200_000,
            mountain_bias: 600_000,
            mountain_gain: 1_200_000,
            detail_amplitude: 350_000,
            height_floor: -900_000,
        }
    }
}

} // verus!
