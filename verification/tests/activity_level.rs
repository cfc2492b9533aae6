use alacritty::activity_level::ActivityLevels;
use alacritty::activity_levels::MissingValuesPolicy;
use alacritty::Rgb;

fn levels(values: Vec<i64>, last: u64, max: usize) -> ActivityLevels {
    let mut a = ActivityLevels::new(last);
    a.activity_levels = values;
    a.max_activity_ticks = max;
    a
}

#[test]
fn new_levels_keep_five_minutes_in_red() {
    let a = ActivityLevels::new(42);
    assert!(a.activity_levels.is_empty());
    assert_eq!(a.last_activity_time, 42);
    assert_eq!(a.max_activity_ticks, 300);
    assert_eq!(a.color, Rgb { r: 183, g: 28, b: 28 });
    assert!(!a.overwrite_last_entry);
    assert_eq!(a.marker_line, None);
    assert_eq!(a.missing_values_policy, MissingValuesPolicy::Zero);
}

#[test]
fn builders_set_one_field() {
    let a = ActivityLevels::new(0)
        .with_color(Rgb { r: 1, g: 2, b: 3 })
        .with_overwrite_last_entry(true)
        .with_marker_line(7);
    assert_eq!(a.color, Rgb { r: 1, g: 2, b: 3 });
    assert!(a.overwrite_last_entry);
    assert_eq!(a.marker_line, Some(7));
    assert_eq!(a.max_activity_ticks, 300);
}

#[test]
fn policies_by_name_default_to_first() {
    let names = [
        ("zero", MissingValuesPolicy::Zero),
        ("one", MissingValuesPolicy::One),
        ("min", MissingValuesPolicy::Min),
        ("max", MissingValuesPolicy::Max),
        ("last", MissingValuesPolicy::Last),
        ("avg", MissingValuesPolicy::Avg),
        ("first", MissingValuesPolicy::First),
        ("5", MissingValuesPolicy::First),
        ("", MissingValuesPolicy::First),
    ];
    for (name, policy) in names.iter() {
        let a = ActivityLevels::new(0).with_missing_values_policy(name.to_string());
        assert_eq!(a.missing_values_policy, *policy);
    }
}

#[test]
fn fills_follow_the_policy() {
    let mut a = levels(vec![4, -3, 9, 2], 10, 300);
    let cases = [
        (MissingValuesPolicy::Zero, 0),
        (MissingValuesPolicy::One, 1),
        (MissingValuesPolicy::Min, -3),
        (MissingValuesPolicy::Max, 9),
        (MissingValuesPolicy::Last, 2),
        (MissingValuesPolicy::First, 4),
        (MissingValuesPolicy::Avg, 3),
        (MissingValuesPolicy::Fixed(-8), -8),
    ];
    for (policy, fill) in cases.iter() {
        a.missing_values_policy = *policy;
        assert_eq!(a.get_missing_values_fill(), *fill);
    }
    // The maximum starts from zero and the minimum from i64::MAX.
    let mut neg = levels(vec![-5, -7], 0, 300);
    neg.missing_values_policy = MissingValuesPolicy::Max;
    assert_eq!(neg.get_missing_values_fill(), 0);
    let mut empty = levels(vec![], 0, 300);
    empty.missing_values_policy = MissingValuesPolicy::Min;
    assert_eq!(empty.get_missing_values_fill(), i64::MAX);
    // The average rounds toward zero.
    let mut avg = levels(vec![-3, -4], 0, 300);
    avg.missing_values_policy = MissingValuesPolicy::Avg;
    assert_eq!(avg.get_missing_values_fill(), -3);
}

#[test]
fn rotation_fills_the_inactive_seconds() {
    let mut a = levels(vec![1, 2], 100, 10);
    a.missing_values_policy = MissingValuesPolicy::Fixed(9);
    a.rotate_activity_levels_vec(104);
    assert_eq!(a.activity_levels, vec![1, 2, 9, 9, 9]);
    assert_eq!(a.last_activity_time, 100);
}

#[test]
fn rotation_drops_the_oldest_levels() {
    let mut a = levels(vec![1, 2, 3, 4], 100, 5);
    a.rotate_activity_levels_vec(103);
    assert_eq!(a.activity_levels, vec![3, 4, 0, 0]);
    let mut b = levels(vec![1, 2, 3], 100, 3);
    b.missing_values_policy = MissingValuesPolicy::Last;
    b.rotate_activity_levels_vec(1000);
    assert_eq!(b.activity_levels, vec![3, 3, 3]);
}

#[test]
fn updates_within_a_second_add_or_overwrite() {
    let mut a = levels(vec![5], 7, 300);
    a.update_activity_level(7, 3);
    assert_eq!(a.activity_levels, vec![8]);
    a.overwrite_last_entry = true;
    a.update_activity_level(7, 3);
    assert_eq!(a.activity_levels, vec![3]);
    assert_eq!(a.last_activity_time, 7);
}

#[test]
fn updates_start_new_seconds() {
    let mut a = ActivityLevels::new(0);
    a.update_activity_level(50, 4);
    assert_eq!(a.activity_levels, vec![4]);
    assert_eq!(a.last_activity_time, 50);
    a.update_activity_level(53, 6);
    assert_eq!(a.activity_levels, vec![4, 0, 0, 6]);
    assert_eq!(a.last_activity_time, 53);
}

#[test]
fn updates_never_outgrow_the_ticks() {
    let mut a = levels(vec![], 0, 3);
    for (t, v) in [(1u64, 1i64), (2, 2), (3, 3), (4, 4), (9, 5), (10, 6)].iter() {
        a.update_activity_level(*t, *v);
        assert!(a.activity_levels.len() <= 3);
        assert_eq!(*a.activity_levels.last().unwrap(), *v);
    }
    assert_eq!(a.activity_levels, vec![0, 5, 6]);
}

#[test]
fn chart_height_covers_levels_and_marker() {
    let a = levels(vec![3, 8, 1], 0, 300);
    assert_eq!(a.max_activity_value(), 8);
    assert_eq!(a.clone().with_marker_line(12).max_activity_value(), 12);
    assert_eq!(a.with_marker_line(2).max_activity_value(), 8);
    assert_eq!(levels(vec![-4], 0, 300).max_activity_value(), 0);
}
