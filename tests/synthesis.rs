use tectonic_globe::biome::{biome_for_height, Biome};
use tectonic_globe::config::Config;
use tectonic_globe::field::{apply_field, displace, sample_point, ElevationSample, NoiseSample};
use tectonic_globe::fixed::UNIT;
use tectonic_globe::partition::{nearest_two, warp};
use tectonic_globe::plates::PlateType::{Continental, Oceanic};
use tectonic_globe::plates::{Plate, PlateType};
use tectonic_globe::relief::Drift::{Convergent, Divergent, Neutral};
use tectonic_globe::relief::{
    classify, drift_between, mountain_strength, orogeny, relief, rift, shelf, zone_weight, Drift,
    Interaction,
};
use tectonic_globe::vector::Vec3;

const QUIET: NoiseSample = NoiseSample { warp: Vec3 { x: 0, y: 0, z: 0 }, mountain: 0, detail: 0 };

fn plate(x: i64, y: i64, z: i64, t: PlateType, drift: Vec3) -> Plate {
    Plate { center: Vec3 { x, y, z }, plate_type: t, drift_dir: drift }
}

fn up() -> Vec3 {
    Vec3 { x: 0, y: 0, z: UNIT }
}

fn down() -> Vec3 {
    Vec3 { x: 0, y: 0, z: -UNIT }
}

#[test]
fn nearest_two_orders_the_plates() {
    let plates = vec![
        plate(UNIT, 0, 0, PlateType::Oceanic, up()),
        plate(0, UNIT, 0, PlateType::Oceanic, up()),
        plate(0, 0, UNIT, PlateType::Oceanic, up()),
        plate(-UNIT, 0, 0, PlateType::Oceanic, up()),
    ];
    let p = Vec3 { x: 0, y: 600_000, z: 800_000 };
    let part = nearest_two(p, &plates);
    assert_eq!(part.nearest, 2);
    assert_eq!(part.second, Some(1));
    assert!(part.nearest_dist_sq <= part.second_dist_sq);
}

#[test]
fn nearest_two_ties_go_to_the_first_plates() {
    let plates = vec![
        plate(UNIT, 0, 0, PlateType::Oceanic, up()),
        plate(0, UNIT, 0, PlateType::Oceanic, up()),
        plate(0, -UNIT, 0, PlateType::Oceanic, up()),
    ];
    let part = nearest_two(Vec3 { x: 0, y: 0, z: UNIT }, &plates);
    assert_eq!(part.nearest, 0);
    assert_eq!(part.second, Some(1));
}

#[test]
fn one_plate_has_no_second() {
    let plates = vec![plate(UNIT, 0, 0, PlateType::Continental, up())];
    let part = nearest_two(Vec3 { x: 0, y: UNIT, z: 0 }, &plates);
    assert_eq!(part.nearest, 0);
    assert_eq!(part.second, None);
    let cfg = Config::standard();
    for dir in [Vec3 { x: 0, y: UNIT, z: 0 }, Vec3 { x: -UNIT, y: 0, z: 0 }] {
        let s = sample_point(&cfg, &plates, dir, QUIET);
        assert_eq!(s, ElevationSample { height: 120_000, biome: Biome::Plains });
    }
}

#[test]
fn warp_without_noise_keeps_the_direction() {
    let cfg = Config::standard();
    let v = Vec3 { x: 0, y: 600_000, z: 800_000 };
    assert_eq!(warp(&cfg, v, Vec3 { x: 0, y: 0, z: 0 }), v);
    let moved = warp(&cfg, Vec3 { x: UNIT, y: 0, z: 0 }, Vec3 { x: 0, y: UNIT, z: 0 });
    assert!(moved.y > 0 && moved.x < UNIT);
}

#[test]
fn rule_table() {
    assert_eq!(classify(Continental, Continental, Convergent), Interaction::Orogeny);
    assert_eq!(classify(Continental, Continental, Divergent), Interaction::Rift);
    assert_eq!(classify(Continental, Continental, Neutral), Interaction::Interior);
    assert_eq!(classify(Continental, Oceanic, Convergent), Interaction::SubductionArc);
    assert_eq!(classify(Continental, Oceanic, Divergent), Interaction::ContinentalShelf);
    assert_eq!(classify(Continental, Oceanic, Neutral), Interaction::ContinentalShelf);
    assert_eq!(classify(Oceanic, Continental, Convergent), Interaction::Trench);
    assert_eq!(classify(Oceanic, Continental, Divergent), Interaction::PassiveShelf);
    assert_eq!(classify(Oceanic, Continental, Neutral), Interaction::OceanShelf);
    assert_eq!(classify(Oceanic, Oceanic, Convergent), Interaction::IslandArc);
    assert_eq!(classify(Oceanic, Oceanic, Divergent), Interaction::MidOceanRidge);
    assert_eq!(classify(Oceanic, Oceanic, Neutral), Interaction::Interior);
}

#[test]
fn drift_regimes_have_a_dead_zone() {
    let cfg = Config::standard();
    assert_eq!(drift_between(&cfg, up(), down()), Drift::Convergent);
    assert_eq!(drift_between(&cfg, up(), up()), Drift::Divergent);
    assert_eq!(drift_between(&cfg, up(), Vec3 { x: UNIT, y: 0, z: 0 }), Drift::Neutral);
    let slight = Vec3 { x: 0, y: 980_000, z: -199_000 };
    assert_eq!(drift_between(&cfg, up(), slight), Drift::Neutral);
}

#[test]
fn zone_weight_falls_across_the_zone() {
    let cfg = Config::standard();
    assert_eq!(zone_weight(&cfg, 0), UNIT);
    assert_eq!(zone_weight(&cfg, 225_000), 500_000);
    assert_eq!(zone_weight(&cfg, 450_000), 0);
    assert_eq!(zone_weight(&cfg, 900_000), 0);
}

#[test]
fn mountain_strength_never_inverts() {
    let cfg = Config::standard();
    assert_eq!(mountain_strength(&cfg, 0), 600_000);
    assert_eq!(mountain_strength(&cfg, UNIT), 1_800_000);
    assert_eq!(mountain_strength(&cfg, 5 * UNIT), 1_800_000);
    assert_eq!(mountain_strength(&cfg, -UNIT / 2), 0);
    assert_eq!(mountain_strength(&cfg, -UNIT), 0);
}

#[test]
fn converging_continents_peak_at_the_boundary() {
    let cfg = Config::standard();
    let f = zone_weight(&cfg, 0);
    assert_eq!(f, UNIT);
    let m = mountain_strength(&cfg, 0);
    assert_eq!(orogeny(&cfg, 120_000, f, m), 120_000 + 240_000);
    assert_eq!(relief(&cfg, Interaction::Orogeny, 120_000, f, m), 360_000);
    for w in [0, 200_000, 500_000, 800_000, 950_000] {
        assert!(orogeny(&cfg, 120_000, w, m) < 360_000);
    }
}

#[test]
fn converging_continents_scenario() {
    let cfg = Config::standard();
    let plates = vec![
        plate(UNIT, 0, 0, PlateType::Continental, up()),
        plate(0, UNIT, 0, PlateType::Continental, down()),
    ];
    let on_boundary = Vec3 { x: 707_106, y: 707_106, z: 0 };
    let s = sample_point(&cfg, &plates, on_boundary, QUIET);
    assert_eq!(s, ElevationSample { height: 360_000, biome: Biome::Foothills });
}

#[test]
fn other_rules_exact_values() {
    let cfg = Config::standard();
    assert_eq!(rift(&cfg, 120_000, UNIT), 120_000 - 300_000);
    assert_eq!(rift(&cfg, 120_000, UNIT / 2), 120_000 - 75_000);
    assert_eq!(shelf(120_000, -50_000, UNIT), -50_000);
    assert_eq!(shelf(120_000, -50_000, 0), 120_000);
    assert_eq!(relief(&cfg, Interaction::Interior, -350_000, UNIT, UNIT), -350_000);
    assert_eq!(relief(&cfg, Interaction::Trench, -350_000, UNIT / 2, 0), -306_250 - 250_000);
    assert_eq!(relief(&cfg, Interaction::SubductionArc, 120_000, UNIT, UNIT), 0);
    assert_eq!(relief(&cfg, Interaction::SubductionArc, 120_000, 450_000, UNIT), 109_065 + 300_000);
    assert_eq!(relief(&cfg, Interaction::MidOceanRidge, -350_000, UNIT, UNIT), -150_000);
    assert_eq!(relief(&cfg, Interaction::IslandArc, -350_000, UNIT / 2, UNIT), -350_000 + 62_500);
    assert_eq!(relief(&cfg, Interaction::OceanShelf, -350_000, UNIT, 0), -100_000);
    assert_eq!(relief(&cfg, Interaction::PassiveShelf, -350_000, UNIT, 0), -200_000);
}

#[test]
fn height_never_falls_below_the_floor() {
    let mut cfg = Config::standard();
    cfg.detail_amplitude = UNIT;
    let plates = vec![plate(UNIT, 0, 0, PlateType::Oceanic, up())];
    let deep = NoiseSample { warp: Vec3 { x: 0, y: 0, z: 0 }, mountain: 0, detail: -UNIT };
    let s = sample_point(&cfg, &plates, Vec3 { x: UNIT, y: 0, z: 0 }, deep);
    assert_eq!(s, ElevationSample { height: -900_000, biome: Biome::DeepTrench });
    let shallow = NoiseSample { warp: Vec3 { x: 0, y: 0, z: 0 }, mountain: 0, detail: UNIT / 10 };
    let t = sample_point(&cfg, &plates, Vec3 { x: UNIT, y: 0, z: 0 }, shallow);
    assert_eq!(t.height, -250_000);
    assert_eq!(t.biome, Biome::Ocean);
}

#[test]
fn biome_bands_ascend() {
    assert_eq!(biome_for_height(-900_000), Biome::DeepTrench);
    assert_eq!(biome_for_height(-450_001), Biome::DeepTrench);
    assert_eq!(biome_for_height(-450_000), Biome::Ocean);
    assert_eq!(biome_for_height(-180_000), Biome::ShallowWater);
    assert_eq!(biome_for_height(-1), Biome::ShallowWater);
    assert_eq!(biome_for_height(0), Biome::Beach);
    assert_eq!(biome_for_height(35_000), Biome::Plains);
    assert_eq!(biome_for_height(180_000), Biome::Foothills);
    assert_eq!(biome_for_height(400_000), Biome::HighRock);
    assert_eq!(biome_for_height(600_000), Biome::Snow);
    assert_eq!(biome_for_height(9_000_000), Biome::Snow);
    let mut last = 0;
    for h in (-1_000_000..1_000_000).step_by(5_000) {
        let rank = biome_for_height(h) as usize;
        assert!(rank >= last);
        last = rank;
    }
}

#[test]
fn biome_colors() {
    assert_eq!(Biome::DeepTrench.srgb_milli(), (0, 30, 120));
    assert_eq!(Biome::Beach.srgb_milli(), (850, 750, 500));
    assert_eq!(Biome::Snow.srgb_milli(), (950, 950, 1000));
}

#[test]
fn displacement_moves_along_the_direction() {
    let cfg = Config::standard();
    assert_eq!(displace(&cfg, Vec3 { x: UNIT, y: 0, z: 0 }, 120_000), Vec3 { x: 30_120_000, y: 0, z: 0 });
    assert_eq!(
        displace(&cfg, Vec3 { x: -600_000, y: 0, z: 800_000 }, -900_000),
        Vec3 { x: -17_460_000, y: 0, z: 23_280_000 }
    );
}

#[test]
fn field_keeps_order_and_length() {
    let cfg = Config::standard();
    let plates = vec![
        plate(UNIT, 0, 0, PlateType::Continental, up()),
        plate(-UNIT, 0, 0, PlateType::Oceanic, up()),
    ];
    let dirs = vec![Vec3 { x: UNIT, y: 0, z: 0 }, Vec3 { x: -UNIT, y: 0, z: 0 }];
    let noise = vec![QUIET, QUIET];
    let (positions, samples) = apply_field(&cfg, &plates, &dirs, &noise);
    assert_eq!(samples.len(), 2);
    assert_eq!(samples[0], ElevationSample { height: 120_000, biome: Biome::Plains });
    assert_eq!(samples[1], ElevationSample { height: -350_000, biome: Biome::Ocean });
    assert_eq!(positions[0], Vec3 { x: 30_120_000, y: 0, z: 0 });
    assert_eq!(positions[1], Vec3 { x: -29_650_000, y: 0, z: 0 });
    let (_, first) = apply_field(&cfg, &plates, &dirs[..1].to_vec(), &noise[..1].to_vec());
    let (_, rest) = apply_field(&cfg, &plates, &dirs[1..].to_vec(), &noise[1..].to_vec());
    assert_eq!(first[0], samples[0]);
    assert_eq!(rest[0], samples[1]);
}
