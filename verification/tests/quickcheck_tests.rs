use count_min_sketch::count_min_sketch::CountMinSketch;
use rand::Rng;

#[test]
fn test_quickcheck_properties() {
    let mut rng = rand::rng();

    for _ in 0..100 {
        // Run 100 random test cases
        let width = {
            let range = 1..100;
            rand::random_range(range)
        };
        let depth = rng.random_range(1..10);
        let num_operations = rng.random_range(10..1000);

        let mut sketch = CountMinSketch::<u64>::new(width, depth).unwrap();
        let mut reference = std::collections::HashMap::new();

        for _ in 0..num_operations {
            let key = rng.random::<u64>();
            sketch.store(&key);
            *reference.entry(key).or_insert(0) += 1;
        }

        // Test random subset of keys
        for (key, &expected) in reference.iter().take(10) {
            let estimated = sketch.query(key);
            assert!(
                estimated >= expected,
                "CMS({}, {}): key {} - expected {}, got {}",
                width,
                depth,
                key,
                expected,
                estimated
            );
        }
    }
}
