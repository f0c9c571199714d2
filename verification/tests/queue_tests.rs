use transaction_queue_api::queue::{
    estimated_processing_time, find_queue_position, first_popped, position_from_rank,
    priority_base_score, priority_queue_name,
};

#[test]
fn priority_queue_names() {
    assert_eq!(priority_queue_name("transactions"), "transactions_priority");
    assert_eq!(priority_queue_name(""), "_priority");
}

#[test]
fn base_scores_order_priorities() {
    assert_eq!(priority_base_score(0), 1000);
    assert_eq!(priority_base_score(10), 990);
    assert_eq!(priority_base_score(-1000), 2000);
    assert!(priority_base_score(10) < priority_base_score(5));
    assert!(priority_base_score(5) < priority_base_score(1));
}

#[test]
fn positions_are_one_based() {
    assert_eq!(position_from_rank(Some(0)), 1);
    assert_eq!(position_from_rank(Some(41)), 42);
    assert_eq!(position_from_rank(None), 1);
}

#[test]
fn first_popped_entry() {
    assert_eq!(first_popped(vec![]), None);
    assert_eq!(
        first_popped(vec!["a".to_string(), "b".to_string()]),
        Some("a".to_string())
    );
}

#[test]
fn queue_position_search() {
    let items: Vec<String> = ["x", "y", "x", "z"].iter().map(|s| s.to_string()).collect();
    assert_eq!(find_queue_position(&items, "x"), Some(1));
    assert_eq!(find_queue_position(&items, "y"), Some(2));
    assert_eq!(find_queue_position(&items, "z"), Some(4));
    assert_eq!(find_queue_position(&items, "w"), None);
    assert_eq!(find_queue_position(&Vec::new(), "x"), None);
}

#[test]
fn estimates() {
    assert_eq!(estimated_processing_time(0), 0);
    assert_eq!(estimated_processing_time(1), 30);
    assert_eq!(estimated_processing_time(120), 3600);
    assert_eq!(estimated_processing_time(121), 3600);
    assert_eq!(estimated_processing_time(1_000_000), 3600);
    assert_eq!(estimated_processing_time(-2), -60);
    let mut last = 0;
    for p in 1..200 {
        let t = estimated_processing_time(p);
        assert!(t >= last);
        assert!((0..=3600).contains(&t));
        last = t;
    }
}
