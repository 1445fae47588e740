//! The rotating pair of histogram windows.

use hedge::Quantile;
use hedge::RotatingHistogram;

#[test]
fn rotation_idempotence() {
    // Rotating an empty write window twice in a row yields a read window
    // with zero samples both times: no counts leak across rotations.
    let mut rh = RotatingHistogram::new(vec![1, 10, 100]);
    rh.rotate();
    assert_eq!(rh.read().total(), 0);
    rh.rotate();
    assert_eq!(rh.read().total(), 0);
}

#[test]
fn rotate_publishes_the_write_window() {
    let mut rh = RotatingHistogram::new(vec![1, 10, 100]);
    rh.add(1);
    rh.add(1);
    rh.add(50);
    // Before a rotation the samples are invisible to quantile queries.
    assert_eq!(rh.read_quantile(Quantile::new(1, 2)), None);
    rh.rotate();
    // After it, the completed window serves the queries.
    assert_eq!(rh.read().total(), 3);
    assert_eq!(rh.read_quantile(Quantile::new(1, 2)), Some(1));
    assert_eq!(rh.read_quantile(Quantile::new(1, 1)), Some(100));
    // The next rotation discards that window again: a stale distribution
    // influences queries for at most two rotation periods.
    rh.rotate();
    assert_eq!(rh.read().total(), 0);
    assert_eq!(rh.read_quantile(Quantile::new(1, 2)), None);
}

#[test]
fn add_targets_only_the_write_window() {
    let mut rh = RotatingHistogram::new(vec![1, 10]);
    rh.add(1);
    rh.rotate();
    assert_eq!(rh.read().total(), 1);
    // New samples go to the fresh write window, not the published one.
    rh.add(10);
    rh.add(10);
    assert_eq!(rh.read().total(), 1);
    rh.rotate();
    assert_eq!(rh.read().total(), 2);
    assert_eq!(rh.read_quantile(Quantile::new(1, 1)), Some(10));
}
