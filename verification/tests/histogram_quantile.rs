//! The bucketed histogram and its quantile lookup.

use hedge::Histogram;
use hedge::Quantile;

#[test]
fn threshold_correctness() {
    // 8 samples at 1 ms and 2 samples at 10 ms: the cumulative fraction at
    // the 1 ms bucket is 0.8 < 0.9, and at the 10 ms bucket 1.0 >= 0.9, so
    // quantile(0.9) is 10 ms.
    let mut h = Histogram::new(vec![1, 10, 100]);
    for _ in 0..8 {
        h.add(1);
    }
    for _ in 0..2 {
        h.add(10);
    }
    assert_eq!(h.total(), 10);
    assert_eq!(h.quantile(Quantile::new(9, 10)), Some(10));
    // At exactly the 0.8 fraction, the 1 ms bucket already suffices.
    assert_eq!(h.quantile(Quantile::new(8, 10)), Some(1));
    assert_eq!(h.quantile(Quantile::new(1, 10)), Some(1));
    assert_eq!(h.quantile(Quantile::new(1, 1)), Some(10));
}

#[test]
fn empty_histogram_unknown() {
    let h = Histogram::new(vec![1, 10, 100]);
    assert_eq!(h.total(), 0);
    assert_eq!(h.quantile(Quantile::new(1, 2)), None);
    assert_eq!(h.quantile(Quantile::new(1, 1)), None);
}

#[test]
fn single_sample_dominates_every_quantile() {
    // A single sample at 5 ms makes every quantile query return the bucket
    // containing 5 ms, which is the one bounded by 10 ms.
    let mut h = Histogram::new(vec![1, 10, 100]);
    h.add(5);
    assert_eq!(h.quantile(Quantile::new(1, 100)), Some(10));
    assert_eq!(h.quantile(Quantile::new(1, 2)), Some(10));
    assert_eq!(h.quantile(Quantile::new(1, 1)), Some(10));
}

#[test]
fn oversized_sample_lands_in_last_bucket() {
    // A duration exceeding the largest bound increments the last bucket.
    let mut h = Histogram::new(vec![1, 10, 100]);
    h.add(5_000);
    assert_eq!(h.total(), 1);
    assert_eq!(h.quantile(Quantile::new(1, 1)), Some(100));
}

#[test]
fn full_quantile_monotone_under_adds() {
    // quantile(1.0) is always at least the largest recorded sample's bucket
    // and never decreases as more samples come in.
    let mut h = Histogram::new(vec![1, 10, 100, 1_000]);
    let one = Quantile::new(1, 1);
    let mut last: u64 = 0;
    for d in [1u64, 1, 5, 20, 3, 20, 999, 2] {
        h.add(d);
        let q = h.quantile(one).unwrap();
        assert!(q >= last);
        last = q;
    }
    // The largest sample, 999 ms, fell in the bucket bounded by 1000 ms.
    assert_eq!(last, 1_000);
}

#[test]
fn reset_clears_every_count() {
    let mut h = Histogram::new(vec![1, 10]);
    h.add(1);
    h.add(10);
    assert_eq!(h.total(), 2);
    h.reset();
    assert_eq!(h.total(), 0);
    assert_eq!(h.quantile(Quantile::new(1, 1)), None);
    // The buckets survive a reset and keep counting.
    h.add(10);
    assert_eq!(h.quantile(Quantile::new(1, 1)), Some(10));
}

#[test]
fn bucket_count_is_fixed() {
    let mut h = Histogram::new(vec![1, 2, 4]);
    assert_eq!(h.bucket_count(), 3);
    h.add(7);
    h.add(1);
    assert_eq!(h.bucket_count(), 3);
    assert_eq!(h.total(), 2);
}
