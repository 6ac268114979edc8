use count_min_sketch::concurrent::ConcurrentCountMinSketch;
use rayon::iter::{IntoParallelRefIterator, ParallelIterator};

#[test]
fn test_concurrent_construction_rejects_zero_dimensions() {
    assert!(ConcurrentCountMinSketch::<u64>::new(0, 3).is_err());
    assert!(ConcurrentCountMinSketch::<u64>::new(3, 0).is_err());
    assert!(ConcurrentCountMinSketch::<u64>::new(3, 3).is_ok());
}

#[test]
fn test_concurrent_distinct_keys_lose_no_stores() {
    let sketch = ConcurrentCountMinSketch::<u64>::new(256, 4).unwrap();
    let keys: Vec<u64> = (0..1000).collect();

    keys.par_iter().for_each(|key| {
        sketch.store_parallel(key);
    });

    assert_eq!(sketch.total_count(), 1000);
    for key in 0..10u64 {
        assert!(sketch.count(&key) >= 1);
    }
}

#[test]
fn test_concurrent_same_key_loses_no_stores() {
    let sketch = ConcurrentCountMinSketch::<String>::new(64, 4).unwrap();
    let key = "shared".to_string();
    let rounds: Vec<u64> = (0..1000).collect();

    rounds.par_iter().for_each(|_| {
        sketch.store_parallel(&key);
    });

    assert_eq!(sketch.total_count(), 1000);
    assert!(sketch.count(&key) >= 1000);
}

#[test]
fn test_concurrent_fresh_sketch_reports_zero() {
    let sketch = ConcurrentCountMinSketch::<u64>::new(16, 2).unwrap();
    assert_eq!(sketch.count(&42u64), 0);
    assert_eq!(sketch.total_count(), 0);
}
