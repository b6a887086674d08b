use photometry::timeline::{has_distinct_times_in, order_by_time, span};

#[test]
fn order_by_time_sorts_and_keeps_ties_in_collection_order() {
    let ts: Vec<i64> = vec![30, 10, 20, 10];
    assert_eq!(order_by_time(&ts), vec![1, 3, 2, 0]);
}

#[test]
fn order_by_time_of_nothing_is_empty() {
    let ts: Vec<i64> = Vec::new();
    assert!(order_by_time(&ts).is_empty());
}

#[test]
fn order_by_time_handles_negative_timestamps() {
    let ts: Vec<i64> = vec![5, -7, 0, -7, 12];
    assert_eq!(order_by_time(&ts), vec![1, 3, 2, 0, 4]);
}

#[test]
fn span_is_latest_minus_earliest() {
    let ts: Vec<i64> = vec![5, -3, 12, 0];
    assert_eq!(span(&ts), 15);
}

#[test]
fn span_of_one_observation_is_zero() {
    let ts: Vec<i64> = vec![1_735_689_600];
    assert_eq!(span(&ts), 0);
}

#[test]
fn span_covers_the_whole_timestamp_range() {
    let ts: Vec<i64> = vec![i64::MAX, i64::MIN];
    assert_eq!(span(&ts), u64::MAX);
}

#[test]
fn distinct_times_need_two_different_timestamps() {
    assert!(!has_distinct_times_in(&Vec::new()));
    assert!(!has_distinct_times_in(&vec![7, 7, 7]));
    assert!(has_distinct_times_in(&vec![7, 7, 8]));
}
