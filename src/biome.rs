//! Biome bands: surface color as a function of final height.
use vstd::prelude::*;

verus! {

/// Upper bound of the deep trench band.
pub const TRENCH_LIMIT: i64 = -450_000;
/// Upper bound of the ocean band.
pub const OCEAN_LIMIT: i64 = -180_000;
/// Upper bound of the shallow water band.
pub const SHALLOW_LIMIT: i64 = 0;
/// Upper bound of the beach band.
pub const BEACH_LIMIT: i64 = 35_000;
/// Upper bound of the plains band.
pub const PLAINS_LIMIT: i64 = 180_000;
/// Upper bound of the foothills band.
pub const FOOTHILLS_LIMIT: i64 = 400_000;
/// Upper bound of the high rock band; snow lies above.
pub const ROCK_LIMIT: i64 = 600_000;

/// Surface bands, from the lowest to the highest.
#[derive(Clone, Copy, Debug, PartialEq, Eq, Structural)]
pub enum Biome {
    DeepTrench,
    Ocean,
    ShallowWater,
    Beach,
    Plains,
    Foothills,
    HighRock,
    Snow,
}

impl Biome {
    /// Position of the band, counted from the lowest.
    pub open spec fn rank(&self) -> nat {
        match self {
            Biome::DeepTrench => 0,
            Biome::Ocean => 1,
            Biome::ShallowWater => 2,
            Biome::Beach => 3,
            Biome::Plains => 4,
            Biome::Foothills => 5,
            Biome::HighRock => 6,
            Biome::Snow => 7,
        }
    }

    /// The band's color, sRGB in thousandths.
    pub open spec fn srgb_spec(&self) -> (u16, u16, u16) {
        match self {
            Biome::DeepTrench => (0, 30, 120),
            Biome::Ocean => (10, 100, 300),
            Biome::ShallowWater => (50, 250, 500),
            Biome::Beach => (850, 750, 500),
            Biome::Plains => (200, 450, 150),
            Biome::Foothills => (400, 350, 300),
            Biome::HighRock => (300, 250, 200),
            Biome::Snow => (950, 950, 1000),
        }
    }

    /// The band's color, sRGB in thousandths.
    pub fn srgb_milli(&self) -> (r: (u16, u16, u16))
        ensures
            r == self.srgb_spec(),
    {
        match self {
            Biome::DeepTrench => (0, 30, 120),
            Biome::Ocean => (10, 100, 300),
            Biome::ShallowWater => (50, 250, 500),
            Biome::Beach => (850, 750, 500),
            Biome::Plains => (200, 450, 150),
            Biome::Foothills => (400, 350, 300),
            Biome::HighRock => (300, 250, 200),
            Biome::Snow => (950, 950, 1000),
        }
    }
}

/// The first band whose upper bound exceeds `h`; snow when none does.
pub open spec fn biome_spec(h: int) -> Biome {
    if h < TRENCH_LIMIT {
        Biome::DeepTrench
    } else if h < OCEAN_LIMIT {
        Biome::Ocean
    } else if h < SHALLOW_LIMIT {
        Biome::ShallowWater
    } else if h < BEACH_LIMIT {
        Biome::Beach
    } else if h < PLAINS_LIMIT {
        Biome::Plains
    } else if h < FOOTHILLS_LIMIT {
        Biome::Foothills
    } else if h < ROCK_LIMIT {
        Biome::HighRock
    } else {
        Biome::Snow
    }
}

/// The biome band of a final height.
pub fn biome_for_height(h: i64) -> (r: Biome)
    ensures
        r == biome_spec(h as int),
        h < TRENCH_LIMIT ==> r == Biome::DeepTrench,
        h >= ROCK_LIMIT ==> r == Biome::Snow,
{
    if h < TRENCH_LIMIT {
        Biome::DeepTrench
    } else if h < OCEAN_LIMIT {
        Biome::Ocean
    } else if h < SHALLOW_LIMIT {
        Biome::ShallowWater
    } else if h < BEACH_LIMIT {
        Biome::Beach
    } else if h < PLAINS_LIMIT {
        Biome::Plains
    } else if h < FOOTHILLS_LIMIT {
        Biome::Foothills
    } else if h < ROCK_LIMIT {
        Biome::HighRock
    } else {
        Biome::Snow
    }
}

/// Banding is monotonic: a higher point never lies in a lower band.
pub proof fn lemma_biome_monotonic(a: int, b: int)
    requires
        a <= b,
    ensures
        biome_spec(a).rank() <= biome_spec(b).rank(),
{
}

/// Every height below the lowest bound is deep trench, every height at or
/// above the highest is snow.
pub proof fn lemma_biome_extremes(h: int)
    ensures
        h < TRENCH_LIMIT ==> biome_spec(h) == Biome::DeepTrench,
        h >= ROCK_LIMIT ==> biome_spec(h) == Biome::Snow,
{
}

} // verus!
