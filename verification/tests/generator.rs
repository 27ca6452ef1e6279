use rand::rngs::SmallRng;
use rand::{RngCore, SeedableRng};
use simon_says::generator::{assemble_seed, index_from_value, SequenceGenerator, SEED_LEN};

const SEED: [u8; SEED_LEN] = [0x5a, 0x03, 1, 0, 0, 1, 1, 0, 1, 0, 0, 0, 1, 1, 0, 1];

#[test]
fn seed_starts_with_the_temperature_low_byte_first() {
    let bits = [
        true, false, false, true, true, false, true, false, false, false, true, true, false, true,
    ];
    assert_eq!(assemble_seed(0x035a, &bits), SEED);
}

#[test]
fn seed_of_extreme_samples() {
    assert_eq!(assemble_seed(0, &[false; 14]), [0u8; 16]);
    let mut expected = [1u8; 16];
    expected[0] = 0xff;
    expected[1] = 0xff;
    assert_eq!(assemble_seed(0xffff, &[true; 14]), expected);
    let mut expected = [0u8; 16];
    expected[0] = 0x00;
    expected[1] = 0x01;
    assert_eq!(assemble_seed(256, &[false; 14]), expected);
}

#[test]
fn value_is_reduced_by_remainder() {
    assert_eq!(index_from_value(0, 4), 0);
    assert_eq!(index_from_value(7, 4), 3);
    assert_eq!(index_from_value(10, 3), 1);
    assert_eq!(index_from_value(u32::MAX, 4), 3);
    assert_eq!(index_from_value(u32::MAX, 1), 0);
    assert_eq!(index_from_value(u32::MAX, 10), 5);
    assert_eq!(index_from_value(5, usize::MAX), 5);
}

#[test]
fn every_index_lies_below_the_bound() {
    for bound in [1usize, 2, 3, 4, 7, 10, 1000] {
        let mut generator = SequenceGenerator::seed(SEED);
        for _ in 0..500 {
            assert!(generator.next_index(bound) < bound);
        }
    }
}

#[test]
fn a_bound_of_one_leaves_one_index() {
    let mut generator = SequenceGenerator::seed([7u8; 16]);
    for _ in 0..50 {
        assert_eq!(generator.next_index(1), 0);
    }
}

#[test]
fn same_seed_same_indices() {
    let mut first = SequenceGenerator::seed(SEED);
    let mut second = SequenceGenerator::seed(SEED);
    for _ in 0..200 {
        assert_eq!(first.next_index(4), second.next_index(4));
    }
}

#[test]
fn indices_are_the_remainders_of_what_small_rng_yields() {
    let mut generator = SequenceGenerator::seed(SEED);
    let mut rng = SmallRng::from_seed(SEED);
    for _ in 0..200 {
        let value = rng.next_u32();
        assert_eq!(generator.next_index(4), (value % 4) as usize);
    }
    let mut generator = SequenceGenerator::seed([9u8; 16]);
    let mut rng = SmallRng::from_seed([9u8; 16]);
    for _ in 0..200 {
        let value = rng.next_u32();
        assert_eq!(generator.next_index(10), (value % 10) as usize);
    }
}

#[test]
fn the_generator_moves_on_with_each_draw() {
    let mut generator = SequenceGenerator::seed(SEED);
    let drawn: Vec<usize> = (0..64).map(|_| generator.next_index(1 << 20)).collect();
    assert!(drawn.iter().any(|&index| index != drawn[0]));
}

#[test]
fn different_seeds_part_ways() {
    let mut first = SequenceGenerator::seed([1u8; 16]);
    let mut second = SequenceGenerator::seed([200u8; 16]);
    let a: Vec<usize> = (0..64).map(|_| first.next_index(1 << 20)).collect();
    let b: Vec<usize> = (0..64).map(|_| second.next_index(1 << 20)).collect();
    assert_ne!(a, b);
}
