use count_min_sketch::count_min_sketch::CountMinSketch;
use std::time::Instant;

#[test]
fn test_large_scale() {
    let width = 1000;
    let depth = 7;
    let mut sketch = CountMinSketch::<usize>::new(width, depth).unwrap();
    let num_operations = 100_000;

    let start = Instant::now();

    for i in 0..num_operations {
        sketch.store(&(i % 1000)); // Only 1000 distinct keys
    }

    let duration = start.elapsed();
    println!("Stored {} operations in {:?}", num_operations, duration);

    // Verify some counts
    for i in 0..10 {
        let count = sketch.query(&i);
        let expected = num_operations / 1000; // Approximately
        assert!(count as usize >= expected);
    }
}
