use alacritty::activity_levels::{TimeSeries, ValueCollisionPolicy};

#[test]
fn it_rotates() {
    let mut test = TimeSeries::default().with_capacity(5);
    test.update((0, 0));
    assert_eq!(test.metrics, vec![(0, Some(0))]);
    test.rotate_metrics(0);
    assert_eq!(test.metrics, vec![(0, Some(0))]);
    // No need to rotate, the next push should do it
    test.rotate_metrics(1);
    assert_eq!(test.metrics, vec![(0, Some(0))]);
    test.update((1, 1));
    assert_eq!(test.metrics, vec![(0, Some(0)), (1, Some(1))]);
    test.rotate_metrics(3);
    assert_eq!(test.metrics, vec![(0, Some(0)), (1, Some(1)), (2, None)]);
    test.rotate_metrics(10);
    assert_eq!(test.metrics, vec![(6, None), (7, None), (8, None), (9, None), (10, None)]);
    test.update((10, 10));
    assert_eq!(test.metrics, vec![(6, None), (7, None), (8, None), (9, None), (10, Some(10))]);
    let mut test = TimeSeries::default().with_capacity(5);
    test.update((100, 0));
    test.update((100, 1));
    test.update((101, 1));
    test.update((103, 3));
    assert_eq!(test.metrics, vec![(100, Some(1)), (101, Some(1)), (102, None), (103, Some(3))]);
    test.rotate_metrics(105);
    assert_eq!(test.metrics, vec![(101, Some(1)), (102, None), (103, Some(3)), (104, None),]);
    test.update((105, 5));
    assert_eq!(
        test.metrics,
        vec![(101, Some(1)), (102, None), (103, Some(3)), (104, None), (105, Some(5))]
    );
}

#[test]
fn it_updates() {
    // The default includes an Increment policy
    let mut test = TimeSeries::default().with_capacity(5);
    // Initialize to 0,0
    test.update((1000, 0));
    assert_eq!(test.metrics, vec![(1000, Some(0))]);
    // Overwrite current entry
    test.update((1000, 1));
    assert_eq!(test.metrics, vec![(1000, Some(1))]);
    // Increment current entry
    test.update((1000, 1));
    assert_eq!(test.metrics, vec![(1000, Some(2))]);
    test.update((1001, 1));
    assert_eq!(test.metrics, vec![(1000, Some(2)), (1001, Some(1))]);
    test.update((1003, 3));
    assert_eq!(test.metrics, vec![(1000, Some(2)), (1001, Some(1)), (1002, None), (1003, Some(3))]);
    test.update((1005, 5));
    assert_eq!(
        test.metrics,
        vec![(1001, Some(1)), (1002, None), (1003, Some(3)), (1004, None), (1005, Some(5))]
    );
    test.update((1025, 25));
    assert_eq!(
        test.metrics,
        vec![(1021, None), (1022, None), (1023, None), (1024, None), (1025, Some(25))]
    );
}

#[test]
fn it_applies_missing_policies() {
    let mut test_zero = TimeSeries::default().with_capacity(5);
    let mut test_one =
        TimeSeries::default().with_capacity(5).with_missing_values_policy("one".to_string());
    let mut test_min =
        TimeSeries::default().with_capacity(5).with_missing_values_policy("min".to_string());
    let mut test_max =
        TimeSeries::default().with_capacity(5).with_missing_values_policy("max".to_string());
    let mut test_last =
        TimeSeries::default().with_capacity(5).with_missing_values_policy("last".to_string());
    let mut test_first =
        TimeSeries::default().with_capacity(5).with_missing_values_policy("first".to_string());
    let mut test_avg =
        TimeSeries::default().with_capacity(5).with_missing_values_policy("avg".to_string());
    test_zero.update((0, 9));
    test_zero.update((2, 1));
    test_one.update((0, 9));
    test_one.update((2, 1));
    test_min.update((0, 9));
    test_min.update((2, 1));
    test_max.update((0, 9));
    test_max.update((2, 1));
    test_last.update((0, 9));
    test_last.update((2, 1));
    test_first.update((0, 9));
    test_first.update((2, 1));
    test_avg.update((0, 9));
    test_avg.update((2, 1));
    assert_eq!(test_zero.get_missing_values_fill(), 0);
    assert_eq!(test_one.get_missing_values_fill(), 1);
    assert_eq!(test_min.get_missing_values_fill(), 1);
    assert_eq!(test_max.get_missing_values_fill(), 9);
    assert_eq!(test_avg.get_missing_values_fill(), 5);
}

#[test]
fn collision_policies() {
    let mut series = TimeSeries::default();
    series.collision_policy = ValueCollisionPolicy::Decrement;
    assert_eq!(series.resolve_metric_collision(5, 7), -2);
    series.collision_policy = ValueCollisionPolicy::Ignore;
    assert_eq!(series.resolve_metric_collision(5, 7), 5);
    series.collision_policy = ValueCollisionPolicy::Overwrite;
    series.update((4, 1));
    series.update((4, 8));
    assert_eq!(series.metrics, vec![(4, Some(8))]);
}

#[test]
fn stats_average_rounds_toward_zero() {
    let mut series = TimeSeries::default().with_missing_values_policy("avg".to_string());
    series.metrics = vec![(1, Some(-7)), (2, None), (3, Some(2))];
    assert_eq!(series.get_missing_values_fill(), -2);
    series.calculate_stats();
    assert_eq!(series.metric_stats.max, 2);
    assert_eq!(series.metric_stats.min, -7);
    assert_eq!(series.metric_stats.sum, -5);
}

#[test]
fn rotates_more_slots_than_the_capacity() {
    let mut test = TimeSeries::default().with_capacity(2);
    test.metrics = vec![(1, Some(1)), (2, Some(2)), (3, Some(3)), (4, Some(4))];
    test.rotate_metrics(10);
    assert_eq!(test.metrics, vec![(9, None), (10, None), (3, Some(3)), (4, Some(4))]);
    let mut test = TimeSeries::default().with_capacity(2);
    test.metrics = vec![(1, Some(1)), (2, Some(2)), (3, Some(3))];
    test.rotate_metrics(4);
    assert_eq!(test.metrics, vec![(3, Some(3)), (3, None), (4, None)]);
}
