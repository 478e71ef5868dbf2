use stats_ci::quantile;
use stats_ci::Interval;

#[test]
fn test_proportion_add() {
    let stats1 = quantile::Stats::new(100);
    let stats2 = quantile::Stats::new(250);
    let stats = stats1 + stats2;
    assert_eq!(stats, quantile::Stats::new(350));

    let mut stats = quantile::Stats::new(100);
    stats += quantile::Stats::new(250);
    assert_eq!(stats, quantile::Stats::new(350));
}

#[test]
fn test_quantile_stats_population() {
    let stats = quantile::Stats::new(15);
    assert_eq!(stats.population(), 15);
    assert_eq!(quantile::Stats::default().population(), 0);
}

#[test]
fn test_quantile_stats_merge_grouping() {
    // Reducing partial counters in any grouping gives the whole count.
    let a = quantile::Stats::new(3);
    let b = quantile::Stats::new(4);
    let c = quantile::Stats::new(5);
    assert_eq!((a + b) + c, a + (b + c));
    assert_eq!(a + b, b + a);
    assert_eq!(((a + b) + c).population(), 12);
}

#[test]
fn test_select_indices() {
    let data = [1, 2, 3, 4, 5, 6, 7, 8, 9, 10, 11, 12, 13, 14, 15];
    let indices = Interval::new(5usize, 12usize).unwrap();
    let selected = quantile::select_indices(&data, &indices).unwrap();
    assert_eq!(selected, Interval::new(6, 13).unwrap());

    let upper = quantile::select_indices(&data, &Interval::new_upper(4usize)).unwrap();
    assert_eq!(upper, Interval::new_upper(5));

    let lower = quantile::select_indices(&data, &Interval::new_lower(11usize)).unwrap();
    assert_eq!(lower, Interval::new_lower(12));

    // On data that is not sorted, the selected elements can compare
    // backwards, and building the interval fails.
    let unsorted = [5, 3];
    let bad = quantile::select_indices(&unsorted, &Interval::new(0usize, 1usize).unwrap());
    assert!(bad.is_err());
}
