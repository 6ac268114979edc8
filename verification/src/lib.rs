//! A Count-Min Sketch: a probabilistic frequency counter.
//!
//! Given a stream of keys, the sketch answers "approximately how many times
//! has this key been seen?" in sub-linear memory. The answer is one-sided:
//! it is never below the true number of stores of that key, and can only be
//! inflated by hash collisions with other keys.
//!
//! `count_min_sketch::CountMinSketch` is the sequential sketch, whose
//! contracts pin every result to the mathematical model in `model`;
//! `concurrent::ConcurrentCountMinSketch` is the lock-free variant for
//! shared use across threads. Both count any key type that implements
//! `keys::SketchKey`.

pub mod concurrent;
pub mod count_min_sketch;
pub mod hashing;
pub mod keys;
pub mod model;
