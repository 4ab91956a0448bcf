use prospero::gen::{generate, name_systems};
use prospero::namegen::{Exhausted, NameGen, MAX_TRIES};
use prospero::point::Point;
use prospero::world::World;
use prospero::sampler::sample_locations;
use rand::distributions::{Distribution, Normal};
use rand::SeedableRng;
use rand_chacha::ChaChaRng;

fn sample(seed: u32, count: u64, spread: f64) -> Vec<Point> {
    sample_locations(seed, &Normal::new(0., spread), count)
}

fn trained(corpus: &[&str]) -> NameGen {
    let mut gen = NameGen::new();
    for name in corpus {
        gen.train(name);
    }
    gen
}

#[test]
fn test_namegen() {
    let data = "elizabeth";
    let mut gen = NameGen::new();
    gen.train(data);
    assert_eq!(gen.generate(), Ok(String::from(data)));
    assert!(gen.generate().is_err());
}

#[test]
fn single_example_runs_out_of_names() {
    let mut gen = trained(&["Sol"]);
    assert_eq!(gen.generate(), Ok(String::from("Sol")));
    assert_eq!(gen.generate(), Err(Exhausted));
    assert_eq!(gen.generate(), Err(Exhausted));
}

#[test]
fn record_refuses_repeats() {
    let mut gen = NameGen::new();
    let sol = String::from("Sol");
    assert!(!gen.was_emitted(&sol));
    assert!(gen.record(&sol));
    assert!(gen.was_emitted(&sol));
    assert!(!gen.record(&sol));
    assert!(gen.record(&String::from("Vega")));
}

#[test]
fn retry_budget_is_a_thousand() {
    assert_eq!(MAX_TRIES, 1000);
}

#[test]
fn two_system_scenario() {
    let locations = sample(42, 2, 1.0);
    let again = sample(42, 2, 1.0);
    assert_eq!(locations.len(), 2);
    for i in 0..2 {
        assert_eq!(locations[i].x_bits, again[i].x_bits);
        assert_eq!(locations[i].y_bits, again[i].y_bits);
    }

    let mut names = trained(&["Sol", "Centauri"]);
    let mut world = World::new();
    assert_eq!(generate(42, &Normal::new(0., 1.0), 2, &mut names, &mut world), Ok(2));
    assert_eq!(world.systems.len(), 2);
    let systems = world.systems.as_slice();
    assert_ne!(systems[0].name, systems[1].name);
    for i in 0..2 {
        assert_eq!(systems[i].location.x_bits, locations[i].x_bits);
        assert_eq!(systems[i].location.y_bits, locations[i].y_bits);
    }
}

#[test]
fn zero_systems_draws_no_names() {
    let mut names = NameGen::new();
    let mut world = World::new();
    assert_eq!(generate(7, &Normal::new(0., 1.0), 0, &mut names, &mut world), Ok(0));
    assert_eq!(world.systems.len(), 0);
    assert!(!names.was_emitted(&String::from("")));
}

#[test]
fn exhaustion_aborts_and_keeps_world() {
    let mut names = trained(&["Sol"]);
    let mut world = World::new();
    assert_eq!(generate(1, &Normal::new(0., 3.0), 1, &mut names, &mut world), Ok(1));
    assert_eq!(generate(1, &Normal::new(0., 3.0), 2, &mut names, &mut world), Err(Exhausted));
    assert_eq!(world.systems.len(), 1);
    assert_eq!(world.systems.as_slice()[0].name, "Sol");
}

#[test]
fn run_names_are_unique() {
    let locations = sample(3, 3, 10.0);
    let mut names = trained(&["Sol", "Vega", "Rigel"]);
    let systems = name_systems(&locations, &mut names).unwrap();
    let all = systems.as_slice();
    assert_eq!(all.len(), 3);
    for i in 0..3 {
        for j in 0..3 {
            if i != j {
                assert_ne!(all[i].name, all[j].name);
            }
        }
    }
}

#[test]
fn same_locations_give_same_layout() {
    let locations = sample(42, 4, 2.0);
    let mut first = trained(&["Sol", "Vega", "Rigel", "Deneb"]);
    let mut second = trained(&["Sol", "Vega", "Rigel", "Deneb"]);
    let a = name_systems(&locations, &mut first).unwrap().into_vec();
    let b = name_systems(&locations, &mut second).unwrap().into_vec();
    for i in 0..4 {
        assert_eq!(a[i].location.x_bits, b[i].location.x_bits);
        assert_eq!(a[i].location.y_bits, b[i].location.y_bits);
    }
}

#[test]
fn sampler_matches_seeded_normal_stream() {
    let mut rng = ChaChaRng::seed_from_u64(42);
    let normal = Normal::new(0., 2.0);
    let drawn = sample(42, 3, 2.0);
    assert_eq!(drawn.len(), 3);
    for p in &drawn {
        assert_eq!(p.x_bits, normal.sample(&mut rng).to_bits());
        assert_eq!(p.y_bits, normal.sample(&mut rng).to_bits());
    }
}

#[test]
fn different_seeds_give_different_locations() {
    let a = sample(1, 4, 1.0);
    let b = sample(2, 4, 1.0);
    assert!((0..4).any(|i| a[i].x_bits != b[i].x_bits || a[i].y_bits != b[i].y_bits));
}

#[test]
fn spread_sets_empirical_deviation() {
    let spread = 5.0;
    let n = 20000;
    let points = sample(9, n, spread);
    for axis in 0..2 {
        let values: Vec<f64> = points
            .iter()
            .map(|p| f64::from_bits(if axis == 0 { p.x_bits } else { p.y_bits }))
            .collect();
        let mean = values.iter().sum::<f64>() / n as f64;
        let var = values.iter().map(|v| (v - mean) * (v - mean)).sum::<f64>() / n as f64;
        assert!(mean.abs() < 0.2, "mean {}", mean);
        assert!((var.sqrt() - spread).abs() < 0.2, "deviation {}", var.sqrt());
    }
}

#[test]
fn single_example_gives_it_then_nothing() {
    let mut gen = trained(&["Sol"]);
    let first = gen.generate();
    assert!(first == Ok(String::from("Sol")) || first == Err(Exhausted));
    for _ in 0..3 {
        assert_eq!(gen.generate(), Err(Exhausted));
    }
}

#[test]
fn one_system_on_fresh_generator_succeeds() {
    let mut names = trained(&["Sol", "Vega"]);
    let mut world = World::new();
    assert_eq!(generate(5, &Normal::new(0., 1.0), 1, &mut names, &mut world), Ok(1));
    let name = &world.systems.as_slice()[0].name;
    assert!(name == "Sol" || name == "Vega");
}
