use count_min_sketch::concurrent::min_value;
use count_min_sketch::count_min_sketch::CountMinSketch;

#[test]
fn test_construction_rejects_zero_dimensions() {
    assert!(CountMinSketch::<u64>::new(0, 5).is_err());
    assert!(CountMinSketch::<u64>::new(5, 0).is_err());
    assert!(CountMinSketch::<u64>::new(0, 0).is_err());
    assert!(CountMinSketch::<u64>::new(1, 1).is_ok());
}

#[test]
fn test_fresh_sketch_reports_zero() {
    let sketch = CountMinSketch::<String>::new(8, 4).unwrap();
    assert_eq!(sketch.query(&"anything".to_string()), 0);
    assert_eq!(sketch.query(&"".to_string()), 0);
    assert_eq!(sketch.total_count(), 0);
}

#[test]
fn test_total_count_matches_store_calls() {
    let mut sketch = CountMinSketch::<u64>::new(16, 4).unwrap();
    for i in 0..57u64 {
        sketch.store(&(i % 5));
    }
    assert_eq!(sketch.total_count(), 57);
}

#[test]
fn test_query_never_decreases_and_tracks_own_stores() {
    let mut sketch = CountMinSketch::<String>::new(4, 3).unwrap();
    let key = "watched".to_string();
    let before = sketch.query(&key);
    assert_eq!(before, 0);

    // Stores of other keys may inflate the estimate but never lower it.
    for other in ["x", "y", "z", "x", "w"] {
        sketch.store(&other.to_string());
        assert!(sketch.query(&key) >= before);
    }

    // Five more stores of the key itself raise its estimate by at least five.
    let mid = sketch.query(&key);
    for _ in 0..5 {
        sketch.store(&key);
    }
    assert!(sketch.query(&key) >= mid + 5);
}

#[test]
fn test_small_sketch_scenario() {
    let mut sketch = CountMinSketch::<String>::new(4, 2).unwrap();
    sketch.store(&"mohamed".to_string());
    sketch.store(&"abdelkhalek".to_string());
    sketch.store(&"salah".to_string());
    assert!(sketch.query(&"salah".to_string()) >= 1);
    assert_eq!(sketch.total_count(), 3);
}

#[test]
fn test_repeated_stores_count_exactly() {
    // The hash family is fixed, so a key must land in the same cells on
    // every store: absent other keys its estimate is exact, not just a bound.
    let mut sketch = CountMinSketch::<u64>::new(32, 4).unwrap();
    for _ in 0..12 {
        sketch.store(&99u64);
    }
    assert_eq!(sketch.query(&99u64), 12);
}

#[test]
fn test_min_value_picks_smallest() {
    assert_eq!(min_value(&vec![5, 3, 9]), 3);
    assert_eq!(min_value(&vec![7]), 7);
    assert_eq!(min_value(&vec![u64::MAX, 0]), 0);
}
