use count_min_sketch::count_min_sketch::CountMinSketch;

#[test]
fn test_overflow_protection() {
    let mut sketch = CountMinSketch::<String>::new(10, 3).unwrap();
    let key = "test".to_string();

    // Saturating addition keeps heavy traffic from wrapping the counters.
    for _ in 0..1000 {
        sketch.store(&key);
    }

    // Should not panic due to overflow
    let count = sketch.query(&key);
    assert!(count >= 1000);
}

#[test]
fn test_collision_handling() {
    // Small sketch to force collisions
    let mut sketch = CountMinSketch::<String>::new(2, 2).unwrap();
    let keys = vec!["a", "b", "c", "d", "e"];

    for key in &keys {
        sketch.store(&key.to_string());
    }

    // All keys should have at least count 1
    for key in &keys {
        assert!(sketch.query(&key.to_string()) >= 1);
    }
}
