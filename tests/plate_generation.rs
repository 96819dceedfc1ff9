use rand::rngs::StdRng;
use rand::SeedableRng;
use tectonic_globe::config::Config;
use tectonic_globe::fixed::UNIT;
use tectonic_globe::plates::{
    draw_plate, generate_plates, is_clear, offer_plate, GenerationError, Plate, PlateDraw,
    PlateType,
};
use tectonic_globe::vector::{dist_sq, Vec3};

fn assert_separated(plates: &[Plate], sep: i64) {
    for i in 0..plates.len() {
        for j in 0..plates.len() {
            if i != j {
                assert!(dist_sq(plates[i].center, plates[j].center) >= sep * sep);
            }
        }
    }
}

#[test]
fn standard_generation_places_every_plate_apart() {
    let cfg = Config::standard();
    let plates = generate_plates(&cfg, 144).unwrap();
    assert_eq!(plates.len(), 15);
    assert_separated(&plates, cfg.min_separation);
}

#[test]
fn generation_is_reproducible_from_the_seed() {
    let cfg = Config::standard();
    let a = generate_plates(&cfg, 144).unwrap();
    let b = generate_plates(&cfg, 144).unwrap();
    assert_eq!(a, b);
    let c = generate_plates(&cfg, 145).unwrap();
    assert_ne!(a, c);
}

#[test]
fn generated_centers_are_drawn_not_fixed() {
    let cfg = Config::standard();
    let plates = generate_plates(&cfg, 7).unwrap();
    assert_ne!(plates[0].center, plates[1].center);
    assert_ne!(plates[0].drift_dir, plates[1].drift_dir);
    for p in &plates {
        let n = p.center.x * p.center.x + p.center.y * p.center.y + p.center.z * p.center.z;
        assert!((n - UNIT * UNIT).abs() <= 50 * UNIT);
    }
}

#[test]
fn continental_share_follows_the_ratio() {
    let mut cfg = Config::standard();
    cfg.continental_permille = 0;
    let ocean = generate_plates(&cfg, 3).unwrap();
    assert!(ocean.iter().all(|p| p.plate_type == PlateType::Oceanic));
    cfg.continental_permille = 1000;
    let land = generate_plates(&cfg, 3).unwrap();
    assert!(land.iter().all(|p| p.plate_type == PlateType::Continental));
}

#[test]
fn infeasible_configuration_is_refused() {
    let mut cfg = Config::standard();
    cfg.plate_count = 100;
    cfg.min_separation = 2 * UNIT;
    assert!(cfg.is_valid());
    assert_eq!(generate_plates(&cfg, 1), Err(GenerationError::Infeasible));
}

#[test]
fn draw_budget_can_run_out() {
    let mut cfg = Config::standard();
    cfg.max_draws = 3;
    assert_eq!(generate_plates(&cfg, 1), Err(GenerationError::Exhausted));
}

#[test]
fn single_plate_generation() {
    let mut cfg = Config::standard();
    cfg.plate_count = 1;
    let plates = generate_plates(&cfg, 144).unwrap();
    assert_eq!(plates.len(), 1);
}

#[test]
fn offer_rejects_a_close_center() {
    let mut plates: Vec<Plate> = Vec::new();
    let first = PlateDraw {
        center: Vec3 { x: UNIT, y: 0, z: 0 },
        continental: true,
        drift: Vec3 { x: 0, y: 0, z: 5 },
    };
    assert!(offer_plate(&mut plates, first, 300_000));
    assert_eq!(
        plates[0],
        Plate {
            center: Vec3 { x: UNIT, y: 0, z: 0 },
            plate_type: PlateType::Continental,
            drift_dir: Vec3 { x: 0, y: 0, z: UNIT },
        }
    );
    let close = PlateDraw {
        center: Vec3 { x: UNIT, y: 100_000, z: 0 },
        continental: false,
        drift: Vec3 { x: 0, y: 1, z: 0 },
    };
    assert!(!offer_plate(&mut plates, close, 300_000));
    assert_eq!(plates.len(), 1);
    let far = PlateDraw {
        center: Vec3 { x: 0, y: UNIT, z: 0 },
        continental: false,
        drift: Vec3 { x: 0, y: 1, z: 0 },
    };
    assert!(offer_plate(&mut plates, far, 300_000));
    assert_eq!(plates[1].plate_type, PlateType::Oceanic);
}

#[test]
fn offer_rejects_a_zero_vector() {
    let mut plates: Vec<Plate> = Vec::new();
    let zero = PlateDraw {
        center: Vec3 { x: 0, y: 0, z: 0 },
        continental: true,
        drift: Vec3 { x: 1, y: 0, z: 0 },
    };
    assert!(!offer_plate(&mut plates, zero, 0));
    assert!(plates.is_empty());
}

#[test]
fn clearance_is_measured_against_every_plate() {
    let plates = vec![Plate {
        center: Vec3 { x: UNIT, y: 0, z: 0 },
        plate_type: PlateType::Oceanic,
        drift_dir: Vec3 { x: 0, y: UNIT, z: 0 },
    }];
    assert!(is_clear(&plates, Vec3 { x: 0, y: UNIT, z: 0 }, 1_000_000));
    assert!(!is_clear(&plates, Vec3 { x: 0, y: UNIT, z: 0 }, 1_500_000));
}

#[test]
fn standard_configuration_is_valid_and_feasible() {
    let cfg = Config::standard();
    assert!(cfg.is_valid());
    assert!(tectonic_globe::plates::is_feasible(&cfg));
    let mut bad = cfg;
    bad.edge_threshold = 0;
    assert!(!bad.is_valid());
}

#[test]
fn drawn_candidates_lie_in_the_cube() {
    let mut rng = StdRng::seed_from_u64(99);
    let first = draw_plate(&mut rng, 1000);
    assert!(first.continental);
    let second = draw_plate(&mut rng, 0);
    assert!(!second.continental);
    assert_ne!(first.center, second.center);
    for v in [first.center, first.drift, second.center, second.drift] {
        for c in [v.x, v.y, v.z] {
            assert!((-UNIT..=UNIT).contains(&c));
        }
    }
}
