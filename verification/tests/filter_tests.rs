use ewma_filter::{EwmaFilter, IntSeriesEwmaFilter};

#[test]
fn integer_basic() {
    let mut tracko = IntSeriesEwmaFilter::default();
    for i in 0..1000 {
        tracko.push_sample(i);
    }
    assert_eq!(tracko.ewma_average(), 900);

    let mut tracko = IntSeriesEwmaFilter::new(1, 100);
    for i in 0..1000 {
        tracko.push_sample(i);
    }
    assert_eq!(tracko.ewma_average(), 900);

    let range = tracko.local_range();
    assert_eq!(range.end, 999);
    assert_eq!(range.start, 0);
}

#[test]
fn seeding_sets_all_to_first_sample() {
    let mut filter = IntSeriesEwmaFilter::default();
    let avg = filter.push_sample(42);
    assert_eq!(avg, 42);
    assert_eq!(filter.ewma_average(), 42);
    let range = filter.local_range();
    assert_eq!(range.start, 42);
    assert_eq!(range.end, 42);
}

#[test]
fn bounds_hold_along_mixed_stream() {
    let mut filter = IntSeriesEwmaFilter::new(1, 4);
    let samples: [i64; 10] = [50, -20, 300, 7, 7, -500, 0, 123, 123, 60];
    for &s in samples.iter() {
        let avg = filter.push_sample(s);
        let range = filter.local_range();
        assert!(range.start <= avg);
        assert!(avg <= range.end);
    }
}

#[test]
fn new_extreme_snaps_exactly() {
    let mut filter = IntSeriesEwmaFilter::new(1, 2);
    filter.push_sample(10);
    filter.push_sample(100);
    assert_eq!(filter.local_range().end, 100);
    filter.push_sample(-50);
    assert_eq!(filter.local_range().start, -50);
}

#[test]
fn constant_stream_stays_converged() {
    let mut filter = IntSeriesEwmaFilter::default();
    for _ in 0..50 {
        let avg = filter.push_sample(7);
        assert_eq!(avg, 7);
        let range = filter.local_range();
        assert_eq!(range.start, 7);
        assert_eq!(range.end, 7);
    }
}

#[test]
fn constant_pushes_converge_within_precision() {
    let mut filter = IntSeriesEwmaFilter::new(1, 2);
    filter.push_sample(0);
    for _ in 0..20 {
        filter.push_sample(1000);
    }
    // With weight 1/2 the average halves its distance to 1000 each push,
    // settling at 999: the last unit is below the ratio's precision.
    assert_eq!(filter.ewma_average(), 999);
    assert_eq!(filter.local_range().end, 1000);
}

#[test]
fn truncation_rounds_toward_zero() {
    let mut filter = IntSeriesEwmaFilter::new(1, 2);
    filter.push_sample(101);
    filter.push_sample(0);
    // -101 / 2 truncates to -50, not -51.
    assert_eq!(filter.ewma_average(), 51);
    let avg = filter.push_sample(80);
    assert_eq!(avg, 65);
    let range = filter.local_range();
    // The fading maximum moved by (80 - 101) / 2 == -10, not -11.
    assert_eq!(range.end, 91);
    assert_eq!(range.start, 0);
}

#[test]
fn minimum_fades_toward_low_samples() {
    let mut filter = IntSeriesEwmaFilter::new(1, 2);
    filter.push_sample(-101);
    filter.push_sample(0);
    assert_eq!(filter.ewma_average(), -51);
    let avg = filter.push_sample(-80);
    assert_eq!(avg, -65);
    let range = filter.local_range();
    assert_eq!(range.start, -91);
    assert_eq!(range.end, 0);
}

#[test]
fn default_matches_explicit_ratio() {
    let mut by_default = IntSeriesEwmaFilter::default();
    let mut explicit = IntSeriesEwmaFilter::new(1, 100);
    let samples: [i64; 8] = [3, 1000, -4, 250, 250, 0, 999, 17];
    for &s in samples.iter() {
        assert_eq!(by_default.push_sample(s), explicit.push_sample(s));
        assert_eq!(by_default.local_range(), explicit.local_range());
    }
}

#[test]
fn reads_do_not_mutate() {
    let mut filter = IntSeriesEwmaFilter::default();
    filter.push_sample(12);
    filter.push_sample(90);
    let a1 = filter.ewma_average();
    let a2 = filter.ewma_average();
    assert_eq!(a1, a2);
    let r1 = filter.local_range();
    let r2 = filter.local_range();
    assert_eq!(r1, r2);
    let a3 = filter.ewma_average();
    assert_eq!(a1, a3);
}
