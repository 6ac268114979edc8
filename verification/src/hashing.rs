//! Row hashing for the sketch.
//!
//! Each row of the sketch selects a column for a key by hashing the key's
//! bytes with that row's hash function. The family is built from one fixed
//! primitive, std's `DefaultHasher`, keyed by the row index: the hasher is
//! fed the row index (as eight little-endian bytes, its own write) and then
//! the key bytes. Distinct rows therefore use distinctly keyed instances of
//! the primitive, and the same sketch gives the same columns in every run.
//! Of the two usual ways to build the family — a randomly keyed hasher drawn
//! per row at construction, or one fixed primitive keyed by the row index —
//! this is the reproducible one: rows are distinctly keyed but only pairwise
//! independent in practice, not hardened against adversarial key sequences,
//! in exchange for results that can be replayed and reasoned about across
//! runs. It is also the one whose determinism vstd's hasher model states,
//! which is what the estimator's one-sided-error guarantee rests on: a key
//! must meet the very cells it incremented.

use std::collections::hash_map::DefaultHasher;
use std::hash::Hasher;
use vstd::prelude::*;
use vstd::std_specs::hash::DefaultHasherAdditionalSpecFns;

verus! {

/// The digest one row's keyed hash function produces on a key's bytes.
///
/// `DefaultHasher::spec_finish` is vstd's model of std's `DefaultHasher`: a
/// fixed function of the sequence of writes alone, so the digest depends on
/// nothing but the row index and the key bytes.
pub open spec fn row_digest(row: int, key_bytes: Seq<u8>) -> u64 {
    DefaultHasher::spec_finish(seq![vstd::bytes::spec_u64_to_le_bytes(row as u64), key_bytes])
}

/// The column a key selects in one row: the row's digest reduced modulo the
/// width. Always in `[0, width)` when `width >= 1`.
pub open spec fn col_of(row: int, key_bytes: Seq<u8>, width: int) -> int {
    row_digest(row, key_bytes) as int % width
}

/// Computes `col_of` for one row of a sketch of the given width.
pub fn column_index(row: usize, key_bytes: &[u8], width: usize) -> (col: usize)
    requires
        width >= 1,
    ensures
        col as int == col_of(row as int, key_bytes@, width as int),
        col < width,
{
    let tag = vstd::bytes::u64_to_le_bytes(row as u64);
    let mut hasher = DefaultHasher::new();
    hasher.write(tag.as_slice());
    hasher.write(key_bytes);
    let digest = hasher.finish();
    let col64 = digest % (width as u64);
    proof {
        assert(hasher@ =~= seq![vstd::bytes::spec_u64_to_le_bytes(row as u64), key_bytes@]);
    }
    col64 as usize
}

} // verus!
