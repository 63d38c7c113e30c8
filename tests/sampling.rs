use rand::{SeedableRng, StdRng};
use random_utils::{random_range, random_range_with, value_of_outcome, InvalidRange, SampleInt};

fn seeded(seed: usize) -> StdRng {
    let words: [usize; 4] = [seed, 7, 11, 13];
    StdRng::from_seed(&words[..])
}

#[test]
fn invalid_range_of_every_kind_is_refused() {
    assert_eq!(random_range(5u8, 4u8), Err(InvalidRange { low: 5u8, high: 4u8 }));
    assert_eq!(random_range(0i8, -1i8), Err(InvalidRange { low: 0i8, high: -1i8 }));
    assert_eq!(
        random_range(i64::MAX, i64::MIN),
        Err(InvalidRange { low: i64::MAX, high: i64::MIN })
    );
    assert_eq!(
        random_range(u64::MAX, 0u64),
        Err(InvalidRange { low: u64::MAX, high: 0u64 })
    );
    assert_eq!(random_range(1usize, 0usize), Err(InvalidRange { low: 1usize, high: 0usize }));
    assert_eq!(random_range(-1isize, -2isize), Err(InvalidRange { low: -1isize, high: -2isize }));
}

#[test]
fn refused_range_draws_nothing_from_the_generator() {
    let mut used = seeded(1);
    let mut untouched = seeded(1);
    assert_eq!(
        random_range_with(&mut used, 10i32, 5i32),
        Err(InvalidRange { low: 10i32, high: 5i32 })
    );
    for _ in 0..100 {
        assert_eq!(
            random_range_with(&mut used, 0u64, 1_000_000u64),
            random_range_with(&mut untouched, 0u64, 1_000_000u64)
        );
    }
}

#[test]
fn same_seed_gives_same_values() {
    let mut a = seeded(42);
    let mut b = seeded(42);
    for _ in 0..1000 {
        assert_eq!(random_range_with(&mut a, -50i16, 50i16), random_range_with(&mut b, -50i16, 50i16));
    }
}

#[test]
fn degenerate_range_at_the_extremes() {
    assert_eq!(random_range(i64::MAX, i64::MAX), Ok(i64::MAX));
    assert_eq!(random_range(i64::MIN, i64::MIN), Ok(i64::MIN));
    assert_eq!(random_range(u64::MAX, u64::MAX), Ok(u64::MAX));
    assert_eq!(random_range(0u64, 0u64), Ok(0u64));
    assert_eq!(random_range(u8::MAX, u8::MAX), Ok(u8::MAX));
    assert_eq!(random_range(-7i8, -7i8), Ok(-7i8));
    let mut rng = seeded(3);
    assert_eq!(random_range_with(&mut rng, usize::MAX, usize::MAX), Ok(usize::MAX));
}

#[test]
fn values_stay_in_range() {
    let mut rng = seeded(5);
    for _ in 0..10_000 {
        let v = random_range_with(&mut rng, -3i32, 4i32).unwrap();
        assert!(-3 <= v && v <= 4);
        let w = random_range_with(&mut rng, u64::MAX - 5, u64::MAX).unwrap();
        assert!(w >= u64::MAX - 5);
        let x = random_range_with(&mut rng, i64::MIN, i64::MIN + 2).unwrap();
        assert!(x <= i64::MIN + 2);
        let y = random_range(250u8, 255u8).unwrap();
        assert!(y >= 250);
    }
}

#[test]
fn every_value_of_a_small_range_appears() {
    let mut rng = seeded(9);
    let mut seen = [0u32; 256];
    for _ in 0..100_000 {
        let v = random_range_with(&mut rng, i8::MIN, i8::MAX).unwrap();
        seen[(v as i16 + 128) as usize] += 1;
    }
    assert!(seen.iter().all(|&c| c > 250 && c < 550));
}

#[test]
fn every_value_at_the_top_of_u64_appears() {
    let mut seen = [false; 4];
    for _ in 0..1000 {
        let v = random_range(u64::MAX - 3, u64::MAX).unwrap();
        seen[(v - (u64::MAX - 3)) as usize] = true;
    }
    assert!(seen.iter().all(|&s| s));
}

#[test]
fn full_ranges_give_varied_values() {
    let mut rng = seeded(11);
    let first = random_range_with(&mut rng, u64::MIN, u64::MAX).unwrap();
    let mut differs = false;
    for _ in 0..100 {
        if random_range_with(&mut rng, u64::MIN, u64::MAX).unwrap() != first {
            differs = true;
        }
    }
    assert!(differs);
    let mut negative = false;
    let mut positive = false;
    for _ in 0..1000 {
        let v = random_range(i64::MIN, i64::MAX).unwrap();
        negative = negative || v < 0;
        positive = positive || v > 0;
    }
    assert!(negative && positive);
}

#[test]
fn draws_move_away_from_the_low_end() {
    let mut above_low = false;
    for _ in 0..100 {
        if random_range(0u64, 1_000_000u64).unwrap() > 0 {
            above_low = true;
        }
    }
    assert!(above_low);
}

#[test]
fn offsets_of_each_kind() {
    assert_eq!((-1i8).offset(), 127);
    assert_eq!(i8::from_offset(255), 127i8);
    assert_eq!(i16::MIN.offset(), 0);
    assert_eq!(0i32.offset(), 1u64 << 31);
    assert_eq!(i64::MIN.offset(), 0);
    assert_eq!(i64::MAX.offset(), u64::MAX);
    assert_eq!(i64::from_offset(1u64 << 63), 0i64);
    assert_eq!(i64::from_offset(5), i64::MIN + 5);
    assert_eq!((-2isize).offset(), isize::MAX as u64 - 1);
    assert_eq!(isize::from_offset(isize::MAX as u64 + 3), 2isize);
    assert_eq!(200u8.offset(), 200);
    assert_eq!(u32::from_offset(70_000), 70_000u32);
    assert_eq!(usize::MAX.offset(), usize::MAX as u64);
}

#[test]
fn outcomes_map_onto_the_range() {
    // [1, 1000] in i32: the window is [lo, hi + 1) and each outcome is its own offset.
    let lo = 1i32.offset();
    assert_eq!(value_of_outcome(1i32, 1000i32, lo), 1);
    assert_eq!(value_of_outcome(1i32, 1000i32, lo + 999), 1000);
    // [5, u64::MAX]: the window sits one lower, each outcome stands for its successor.
    assert_eq!(value_of_outcome(5u64, u64::MAX, 4), 5);
    assert_eq!(value_of_outcome(5u64, u64::MAX, u64::MAX - 1), u64::MAX);
    // all of i8: outcomes are offsets.
    assert_eq!(value_of_outcome(i8::MIN, i8::MAX, 0), -128);
    assert_eq!(value_of_outcome(i8::MIN, i8::MAX, 255), 127);
    // all of i64: the window is all of u64.
    assert_eq!(value_of_outcome(i64::MIN, i64::MAX, u64::MAX), i64::MAX);
    assert_eq!(value_of_outcome(i64::MIN, i64::MAX, 0), i64::MIN);
}

#[test]
fn end_to_end_counts_and_mean() {
    let mut rng = seeded(2024);
    let draws: u64 = 9_990_000;
    let mut counts = vec![0u64; 1000];
    let mut sum: u64 = 0;
    for _ in 0..draws {
        let v = random_range_with(&mut rng, 1i32, 1000i32).unwrap();
        counts[(v - 1) as usize] += 1;
        sum += v as u64;
    }
    assert!(counts.iter().all(|&c| c > 0));
    let mean = sum as f64 / draws as f64;
    assert!((mean - 500.5).abs() <= 0.5);
    let min_count = *counts.iter().min().unwrap();
    let max_count = *counts.iter().max().unwrap();
    assert!(min_count >= 9500 && max_count <= 10500);
}
