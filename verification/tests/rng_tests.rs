use rust_autoclicker::rng::FastRng;
use rust_autoclicker::timing::get_nanoseconds_since;

#[test]
fn seeded_generator_follows_xoshiro256plus() {
    let mut g = FastRng::from_seed(0);
    assert_eq!(g.next_u64(), 15757075719729598363);
    assert_eq!(g.next_u64(), 3555206913761248309);
    assert_eq!(g.next_u64(), 17994763647826544299);
}

#[test]
fn another_seed_gives_its_own_sequence() {
    let mut g = FastRng::from_seed(42);
    assert_eq!(g.next_u64(), 1581911519303979561);
    assert_eq!(g.next_u64(), 5726079574540882823);
    assert_eq!(g.next_u64(), 1154208747244521758);
}

#[test]
fn gen_range_maps_draws_into_the_range() {
    let mut g = FastRng::from_seed(42);
    let drawn: Vec<i64> = (0..5).map(|_| g.gen_range(-40_000_000, 40_000_000)).collect();
    assert_eq!(drawn, vec![-33139553, -15167089, -34994418, -15483094, -39996564]);
}

#[test]
fn gen_range_small_range() {
    let mut g = FastRng::from_seed(7);
    let drawn: Vec<i64> = (0..8).map(|_| g.gen_range(1, 6)).collect();
    assert_eq!(drawn, vec![6, 2, 5, 5, 5, 1, 2, 2]);
}

#[test]
fn gen_range_single_value() {
    let mut g = FastRng::from_seed(7);
    assert_eq!(g.gen_range(5, 5), 5);
    assert_eq!(g.gen_range(5, 5), 5);
}

#[test]
fn gen_range_full_width_gives_min() {
    let mut g = FastRng::from_seed(9);
    assert_eq!(g.gen_range(i64::MIN, i64::MAX), i64::MIN);
}

#[test]
fn gen_range_stays_within_bounds() {
    let mut g = FastRng::from_seed(123);
    for _ in 0..1000 {
        let v = g.gen_range(-3, 3);
        assert!(-3 <= v && v <= 3);
    }
}

#[test]
fn clock_seeded_generator_is_available() {
    let g = FastRng::new();
    assert!(g.is_some());
    let mut g = g.unwrap();
    let a = g.next_u64();
    let b = g.next_u64();
    assert_ne!(a, b);
}

#[test]
fn nanoseconds_are_a_third_of_the_ticks() {
    assert_eq!(get_nanoseconds_since(100, 400), 100);
    assert_eq!(get_nanoseconds_since(100, 402), 100);
    assert_eq!(get_nanoseconds_since(0, 3_000_000_000), 1_000_000_000);
}

#[test]
fn nanoseconds_since_a_later_reading_are_zero() {
    assert_eq!(get_nanoseconds_since(400, 100), 0);
}
