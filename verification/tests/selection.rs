use schroedinger_box::source::{FixedSource, RandomSource, SplitMix64};
use schroedinger_box::weights::{select, sum_weights};

#[test]
fn sum_weights_adds_all_weights() {
    assert_eq!(sum_weights::<char>(&vec![]), 0);
    assert_eq!(sum_weights(&vec![(1, 'a'), (5, 'b')]), 6);
    assert_eq!(sum_weights(&vec![(0, 'a'), (0, 'b')]), 0);
    assert_eq!(sum_weights(&vec![(100000, 1), (500000, 2), (499999, 3), (1, 4)]), 1100000);
}

#[test]
fn sum_weights_does_not_wrap() {
    let heavy = vec![(u64::MAX, ()), (u64::MAX, ()), (u64::MAX, ()), (1, ())];
    assert_eq!(sum_weights(&heavy), 3 * (u64::MAX as u128) + 1);
}

#[test]
fn select_follows_the_prefix_sums() {
    let candidates = vec![(1, 'a'), (5, 'b')];
    assert_eq!(select(&candidates, 0), 0);
    assert_eq!(select(&candidates, 1), 1);
    assert_eq!(select(&candidates, 5), 1);
}

#[test]
fn select_covers_each_candidate_by_its_weight() {
    let candidates = vec![(2, ()), (3, ()), (4, ())];
    let picked: Vec<usize> = (0..9).map(|draw| select(&candidates, draw)).collect();
    assert_eq!(picked, vec![0, 0, 1, 1, 1, 2, 2, 2, 2]);
}

#[test]
fn select_skips_candidates_of_weight_zero() {
    let candidates = vec![(0, ()), (2, ()), (0, ()), (0, ()), (1, ()), (0, ())];
    assert_eq!(select(&candidates, 0), 1);
    assert_eq!(select(&candidates, 1), 1);
    assert_eq!(select(&candidates, 2), 4);
}

#[test]
fn select_handles_draws_above_64_bits() {
    let candidates = vec![(u64::MAX, ()), (u64::MAX, ()), (7, ())];
    let max = u64::MAX as u128;
    assert_eq!(select(&candidates, max - 1), 0);
    assert_eq!(select(&candidates, max), 1);
    assert_eq!(select(&candidates, 2 * max - 1), 1);
    assert_eq!(select(&candidates, 2 * max), 2);
    assert_eq!(select(&candidates, 2 * max + 6), 2);
}

#[test]
fn fixed_source_reduces_its_value_into_the_range() {
    let mut rng = FixedSource { value: 13 };
    assert_eq!(rng.below(10), 3);
    assert_eq!(rng.below(13), 0);
    assert_eq!(rng.below(14), 13);
    assert_eq!(rng.below(1), 0);
    assert_eq!(rng.below(u128::MAX), 13);
    assert_eq!(rng, FixedSource { value: 13 });
}

#[test]
fn splitmix_puts_out_the_known_sequence() {
    let mut rng = SplitMix64::new(1234567);
    assert_eq!(rng.next_u64(), 6457827717110365317);
    assert_eq!(rng.next_u64(), 3203168211198807973);
    assert_eq!(rng.next_u64(), 9817491932198370423);
    assert_eq!(rng.next_u64(), 4593380528125082431);
    assert_eq!(rng.next_u64(), 16408922859458223821);

    let mut zero = SplitMix64::new(0);
    assert_eq!(zero.next_u64(), 0xE220A8397B1DCDAF);
    assert_eq!(zero.next_u64(), 0x6E789E6AA1B965F4);
    assert_eq!(zero.next_u64(), 0x06C45D188009454F);
}

#[test]
fn splitmix_draws_from_two_outputs() {
    let mut rng = SplitMix64::new(0);
    let wide: u128 = (0xE220A8397B1DCDAF_u128 << 64) | 0x6E789E6AA1B965F4;
    assert_eq!(rng.below(u128::MAX), wide);
    let mut rng = SplitMix64::new(0);
    assert_eq!(rng.below(10), 0);
    assert_eq!(rng.below(1 << 100), 673450589022113112413050798572);
    let mut stepped = SplitMix64::new(0);
    for _ in 0..4 {
        stepped.next_u64();
    }
    assert_eq!(rng, stepped);
}

#[test]
fn splitmix_stays_below_the_bound() {
    let mut rng = SplitMix64::new(2024);
    for bound in 1..500u128 {
        assert!(rng.below(bound) < bound);
    }
    assert_eq!(rng.below(1), 0);
}

#[test]
fn splitmix_repeats_for_equal_seeds() {
    let mut one = SplitMix64::new(77);
    let mut other = SplitMix64::new(77);
    for _ in 0..100 {
        assert_eq!(one.below(1000), other.below(1000));
    }
    assert_eq!(one, other);
    assert_ne!(one, SplitMix64::new(77));
}
