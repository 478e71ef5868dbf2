use stats_ci::error::IntervalError;
use stats_ci::Interval;
use std::cmp::Ordering;

#[test]
fn test_interval_new() {
    let interval = Interval::new(0., 1.).unwrap();
    assert_eq!(interval.low(), Some(0.));
    assert_eq!(interval.high(), Some(1.));
    assert!(interval.contains(&0.5));
    assert!(!interval.contains(&2.));
    assert!(!interval.is_degenerate());
    assert!(interval.is_two_sided());
    assert!(!interval.is_one_sided());
    assert!(!interval.is_lower());
    assert!(!interval.is_upper());

    let interval = Interval::new_lower(0.);
    assert_eq!(interval.low(), None);
    assert_eq!(interval.high(), Some(0.));
    assert!(!interval.is_degenerate());
    assert!(!interval.is_two_sided());
    assert!(interval.is_one_sided());
    assert!(interval.is_lower());
    assert!(!interval.is_upper());

    let interval = Interval::new_upper(0.);
    assert_eq!(interval.low(), Some(0.));
    assert_eq!(interval.high(), None);
    assert!(!interval.is_degenerate());
    assert!(!interval.is_two_sided());
    assert!(interval.is_one_sided());
    assert!(!interval.is_lower());
    assert!(interval.is_upper());

    let interval = Interval::new(10, 20).unwrap();
    assert_eq!(interval.low(), Some(10));
    assert_eq!(interval.high(), Some(20));
    assert_eq!(interval.low_i(), 10);
    assert_eq!(interval.high_i(), 20);
    assert!(interval.contains(&15));
    assert!(!interval.contains(&30));
    assert!(!interval.is_degenerate());
    assert!(interval.is_two_sided());
    assert!(!interval.is_one_sided());
    assert!(!interval.is_lower());
    assert!(!interval.is_upper());

    let interval = Interval::new_lower(10_i64);
    assert_eq!(interval.low(), None);
    assert_eq!(interval.high(), Some(10));
    assert_eq!(interval.low_i(), i64::MIN);
    assert_eq!(interval.high_i(), 10);
    assert!(!interval.is_degenerate());
    assert!(!interval.is_two_sided());
    assert!(interval.is_one_sided());
    assert!(interval.is_lower());
    assert!(!interval.is_upper());

    let interval = Interval::new_lower(10_usize);
    assert_eq!(interval.low(), None);
    assert_eq!(interval.high(), Some(10));
    assert_eq!(interval.low_u(), 0);
    assert_eq!(interval.high_u(), 10);
    assert!(!interval.is_degenerate());
    assert!(!interval.is_two_sided());
    assert!(interval.is_one_sided());
    assert!(interval.is_lower());
    assert!(!interval.is_upper());

    let interval = Interval::new(10, 10).unwrap();
    assert_eq!(interval.low(), Some(10));
    assert_eq!(interval.high(), Some(10));
    assert!(interval.is_degenerate());
    assert!(interval.is_two_sided());
    assert!(!interval.is_one_sided());
    assert!(!interval.is_lower());
    assert!(!interval.is_upper());
}

#[test]
fn test_interval_contains() {
    let interval = Interval::new(0., 1.).unwrap();
    assert!(interval.contains(&0.5));
    assert!(!interval.contains(&2.));
}

#[test]
fn test_interval_includes() {
    let interval1 = Interval::new(0., 10.).unwrap();
    let interval2 = Interval::new(0., 1.).unwrap();
    let interval3 = Interval::new(0., 10.).unwrap();
    let interval4 = Interval::new(1., 11.).unwrap();
    let interval5 = Interval::new(10., 20.).unwrap();
    let interval6 = Interval::new_upper(0.);
    let interval7 = Interval::new_upper(11.);
    let interval8 = Interval::new_upper(20.);
    let interval9 = Interval::new_lower(10.);
    let interval10 = Interval::new_lower(1.);
    let interval11 = Interval::new_lower(-1.);

    assert!(interval1.includes(&interval2));
    assert!(interval1.includes(&interval3));
    assert!(!interval1.includes(&interval4));
    assert!(!interval1.includes(&interval5));
    assert!(!interval1.includes(&interval6));
    assert!(!interval1.includes(&interval7));
    assert!(!interval1.includes(&interval8));
    assert!(!interval1.includes(&interval9));
    assert!(!interval1.includes(&interval10));

    assert!(!interval2.includes(&interval1));
    assert!(interval3.includes(&interval1));
    assert!(!interval4.includes(&interval1));
    assert!(!interval5.includes(&interval1));
    assert!(interval6.includes(&interval1));
    assert!(!interval7.includes(&interval1));
    assert!(!interval8.includes(&interval1));
    assert!(interval9.includes(&interval1));
    assert!(!interval10.includes(&interval1));
    assert!(!interval11.includes(&interval1));
}

#[test]
fn test_interval_compare() {
    let interval1 = Interval::new(0., 10.).unwrap();
    let interval2 = Interval::new(0., 1.).unwrap();
    let interval3 = Interval::new(0., 10.).unwrap();
    let interval4 = Interval::new(1., 11.).unwrap();
    let interval5 = Interval::new(10., 20.).unwrap();
    let interval6 = Interval::new_upper(0.);
    let interval7 = Interval::new_upper(11.);
    let interval8 = Interval::new_upper(20.);
    let interval9 = Interval::new_lower(10.);
    let interval10 = Interval::new_lower(1.);
    let interval11 = Interval::new_lower(-1.);

    assert_eq!(interval1.partial_cmp(&interval2), None);
    assert_eq!(interval1.partial_cmp(&interval3), Some(Ordering::Equal));
    assert_eq!(interval1.partial_cmp(&interval4), None);
    assert_eq!(interval1.partial_cmp(&interval5), Some(Ordering::Less));
    assert_eq!(interval1.partial_cmp(&interval6), None);
    assert_eq!(interval1.partial_cmp(&interval7), Some(Ordering::Less));
    assert_eq!(interval1.partial_cmp(&interval8), Some(Ordering::Less));
    assert_eq!(interval1.partial_cmp(&interval9), None);
    assert_eq!(interval1.partial_cmp(&interval10), None);
    assert_eq!(interval1.partial_cmp(&interval11), Some(Ordering::Greater));
}

#[test]
fn test_interval_from_range() {
    let interval = Interval::try_from(0..=3).unwrap();
    assert_eq!(interval, Interval::new(0, 3).unwrap());
    assert_eq!(interval.low(), Some(0));
    assert_eq!(interval.high(), Some(3));
    assert!(interval.contains(&1));
    assert!(!interval.contains(&10));

    let interval = Interval::from(10..);
    assert_eq!(interval, Interval::new_upper(10));
    assert_eq!(interval.low(), Some(10));
    assert_eq!(interval.high(), None);
    assert!(interval.contains(&10));
    assert!(interval.contains(&100));
    assert!(!interval.contains(&0));

    let interval = Interval::from(..=10);
    assert_eq!(interval, Interval::new_lower(10));
    assert_eq!(interval.low(), None);
    assert_eq!(interval.high(), Some(10));
    assert!(interval.contains(&10));
    assert!(!interval.contains(&100));
    assert!(interval.contains(&0));
}

#[test]
fn test_special_case() {
    assert!(Interval::new(10, 10).is_ok());
    assert!(Interval::new(10, 8).is_err());
}

#[test]
fn test_interval_intersection() {
    let interval1 = Interval::new(0, 10).unwrap();
    let interval2 = Interval::new(5, 15).unwrap();
    let interval3 = Interval::new(10, 20).unwrap();
    let interval4 = Interval::new(15, 25).unwrap();

    assert!(interval1.intersects(&interval2));
    assert!(interval2.intersects(&interval1));
    assert!(interval2.intersects(&interval3));
    assert!(interval3.intersects(&interval2));
    assert!(interval3.intersects(&interval4));
    assert!(interval4.intersects(&interval3));

    // intervals are assumed to be inclusive
    assert!(interval1.intersects(&interval3));
    assert!(interval3.intersects(&interval1));

    assert!(!interval1.intersects(&interval4));
    assert!(!interval4.intersects(&interval1));
}

#[test]
fn test_interval_equality() {
    let interval1 = Interval::new(0, 10).unwrap();
    let interval2 = Interval::new(0, 10).unwrap();
    let interval3 = Interval::new(0, 11).unwrap();
    let interval4 = Interval::new(1, 10).unwrap();
    let interval5 = Interval::new(1, 11).unwrap();

    assert_eq!(interval1, interval2);
    assert_ne!(interval1, interval3);
    assert_ne!(interval1, interval4);
    assert_ne!(interval1, interval5);
}

#[test]
fn test_width() {
    assert_eq!(Interval::new(0, 10).unwrap().width(), Some(10));
    assert_eq!(Interval::new(0, 0).unwrap().width(), Some(0));
    assert_eq!(Interval::new(-10, 0).unwrap().width(), Some(10));
    assert_eq!(Interval::new(-10, -10).unwrap().width(), Some(0));
}

#[test]
fn test_from() {
    let interval = Interval::try_from(0..=10).unwrap();
    assert_eq!(interval.low(), Some(0));
    assert_eq!(interval.high(), Some(10));

    let tuple: (i32, i32) = interval.into();
    assert_eq!(tuple, (0, 10));

    let tuple: (usize, usize) = Interval::new_lower(10).into();
    assert_eq!(tuple, (0, 10));

    let tuple: (usize, usize) = Interval::new_upper(10).into();
    assert_eq!(tuple, (10, usize::MAX));
}

#[test]
fn test_interval_one_sided_opposite_intersection() {
    // [3, oo) and (-oo, 9] overlap on [3, 9]; both call orders agree.
    let upper = Interval::new_upper(3);
    let lower = Interval::new_lower(9);
    assert!(upper.intersects(&lower));
    assert!(lower.intersects(&upper));

    // [9, oo) and (-oo, 3] are disjoint; both call orders agree.
    let upper = Interval::new_upper(9);
    let lower = Interval::new_lower(3);
    assert!(!upper.intersects(&lower));
    assert!(!lower.intersects(&upper));

    // Touching at a single point still counts as intersecting.
    let upper = Interval::new_upper(5);
    let lower = Interval::new_lower(5);
    assert!(upper.intersects(&lower));
    assert!(lower.intersects(&upper));
}

#[test]
fn test_interval_bound_refs() {
    let interval = Interval::new(4, 7).unwrap();
    assert_eq!(interval.left(), Some(&4));
    assert_eq!(interval.right(), Some(&7));
    assert_eq!(interval.low_as_ref(), Some(&4));
    assert_eq!(interval.high_as_ref(), Some(&7));

    let upper = Interval::new_upper(4);
    assert_eq!(upper.left(), Some(&4));
    assert_eq!(upper.right(), None);

    let lower = Interval::new_lower(7);
    assert_eq!(lower.left(), None);
    assert_eq!(lower.right(), Some(&7));
}

#[test]
fn test_interval_errors() {
    let bad: Result<Interval<i32>, IntervalError> = Interval::new(10, 8);
    assert_eq!(bad.unwrap_err(), IntervalError::InvalidBounds);

    let none: Result<Interval<i32>, IntervalError> = Interval::try_from((None, None));
    assert_eq!(none.unwrap_err(), IntervalError::EmptyInterval);

    assert_eq!(
        IntervalError::InvalidBounds.message(),
        "invalid bounds: the left bound is greater than the right bound"
    );
    assert_eq!(IntervalError::EmptyInterval.message(), "empty interval");
}

#[test]
fn test_interval_from_tuples() {
    let interval = Interval::try_from((2, 4)).unwrap();
    assert_eq!(interval, Interval::new(2, 4).unwrap());
    assert!(Interval::<i32>::try_from((4, 2)).is_err());

    let interval = Interval::try_from((Some(2), Some(4))).unwrap();
    assert_eq!(interval, Interval::new(2, 4).unwrap());
    let interval = Interval::try_from((Some(2), None)).unwrap();
    assert_eq!(interval, Interval::new_upper(2));
    let interval = Interval::try_from((None, Some(4))).unwrap();
    assert_eq!(interval, Interval::new_lower(4));

    let pair: (Option<i32>, Option<i32>) = Interval::new(2, 4).unwrap().into();
    assert_eq!(pair, (Some(2), Some(4)));
    let pair: (Option<i32>, Option<i32>) = Interval::new_upper(2).into();
    assert_eq!(pair, (Some(2), None));
    let pair: (Option<i32>, Option<i32>) = Interval::new_lower(4).into();
    assert_eq!(pair, (None, Some(4)));
}

#[test]
fn test_interval_scalar_ops() {
    let interval = Interval::new(2, 4).unwrap();
    assert_eq!(interval * 2, Interval::new(4, 8).unwrap());
    assert_eq!(interval + 2, Interval::new(4, 6).unwrap());
    assert_eq!(interval - 2, Interval::new(0, 2).unwrap());
    assert_eq!(interval / 2, Interval::new(1, 2).unwrap());

    let upper = Interval::new_upper(3) + 2;
    assert_eq!(upper, Interval::new_upper(5));
    let lower = Interval::new_lower(3) - 2;
    assert_eq!(lower, Interval::new_lower(1));
}

#[test]
fn test_interval_negative_scalar() {
    // Scaling by a negative number reverses order, so the bounds of a
    // two-sided interval swap and the result stays ordered.
    let interval = Interval::new(2, 4).unwrap();
    let scaled = interval * -2;
    assert_eq!(scaled, Interval::new(-8, -4).unwrap());

    let negated = -interval;
    assert_eq!(negated, Interval::new(-4, -2).unwrap());

    // Scaling or negating a one-sided interval by a negative number changes
    // its direction.
    assert_eq!(Interval::new_upper(3) * -1, Interval::new_lower(-3));
    assert_eq!(Interval::new_lower(3) * -1, Interval::new_upper(-3));
    let negated_upper = -Interval::new_upper(3);
    assert_eq!(negated_upper, Interval::new_lower(-3));
    let negated_lower = -Interval::new_lower(3);
    assert_eq!(negated_lower, Interval::new_upper(-3));

    // A non-negative factor keeps both the bound order and the direction.
    assert_eq!(interval * 0, Interval::new(0, 0).unwrap());
    assert_eq!(Interval::new_upper(3) * 2, Interval::new_upper(6));
}

#[test]
fn test_interval_interval_ops() {
    let a = Interval::new(1, 5).unwrap();
    let b = Interval::new(2, 3).unwrap();
    assert_eq!(a + b, Interval::new(3, 8).unwrap());
    assert_eq!(a - b, Interval::new(-2, 3).unwrap());

    let upper = Interval::new_upper(10);
    assert_eq!(a + upper, Interval::new_upper(11));
    assert_eq!(a - upper, Interval::new_lower(-5));

    let lower = Interval::new_lower(10);
    assert_eq!(a + lower, Interval::new_lower(15));
    assert_eq!(a - lower, Interval::new_upper(-9));
}

#[test]
fn test_width_extremes() {
    let interval = Interval::new(0u64, u64::MAX).unwrap();
    assert_eq!(interval.width(), Some(u64::MAX));
    assert_eq!(Interval::new_upper(0u64).width(), None);
    assert_eq!(Interval::new_lower(0u64).width(), None);
}

#[test]
fn test_bound_fillers() {
    assert_eq!(Interval::new_upper(7u64).high_u(), u64::MAX);
    assert_eq!(Interval::new_lower(7u64).low_u(), 0);
    assert_eq!(Interval::new_upper(7i32).high_i(), i32::MAX);
    assert_eq!(Interval::new_lower(7i32).low_i(), i32::MIN);
}
