//! The lock-free concurrent Count-Min Sketch.
//!
//! The same matrix as the sequential sketch, but every cell and the total
//! counter are atomics, so any number of callers may store into one shared
//! instance without a lock: each cell update is an atomic saturating
//! read-modify-write (a compare-and-swap loop), so concurrent increments to
//! the same cell are never lost and never torn, and no lock is held across a
//! full store — a concurrent query may see some rows of a store already
//! applied and others not yet, which only ever under-reports row cells, never
//! a committed count.
//!
//! What is verified here is the structure: the dimensions, that every access
//! stays in bounds, that each row hashes the key exactly as the sequential
//! sketch does, and that a query returns the minimum of the cells it read.
//! The values inside the atomics are shared mutable state that a sequential
//! contract cannot pin down; that concurrent increments are not lost rests on
//! std's atomic read-modify-write guarantee and is exercised by the tests.

use crate::count_min_sketch::InvalidDimension;
use crate::keys::SketchKey;
use core::marker::PhantomData;
use core::sync::atomic::{AtomicU64, AtomicUsize};
use vstd::prelude::*;

verus! {

/// The smallest value in a non-empty vector — the Count-Min estimator applied
/// to one observed cell value per row.
pub fn min_value(values: &Vec<u64>) -> (smallest: u64)
    requires
        values@.len() >= 1,
    ensures
        forall|i: int| 0 <= i < values@.len() ==> smallest <= values@[i],
        exists|i: int| 0 <= i < values@.len() && smallest == values@[i],
{
    let mut smallest = values[0];
    let mut i: usize = 1;
    while i < values.len()
        invariant
            1 <= i <= values@.len(),
            forall|j: int| 0 <= j < i ==> smallest <= values@[j],
            exists|j: int| 0 <= j < i && smallest == values@[j],
        decreases values@.len() - i,
    {
        if values[i] < smallest {
            smallest = values[i];
        }
        i = i + 1;
    }
    smallest
}

/// Atomically raise a cell by one, clamping at `u64::MAX`: a compare-and-swap
/// loop retried until the increment lands on the value actually present, so
/// no concurrent increment of the same cell is lost. A saturated cell is left
/// as it is.
///
/// The retry count bounds the loop for the termination checker; it cannot be
/// reached. Every failed strong compare-exchange means the cell moved under
/// us, and cells only move up (every writer goes through here), so before
/// `u64::MAX` failures the cell is saturated and the loop exits.
fn saturating_increment_u64(cell: &AtomicU64) {
    let mut observed = cell.load(core::sync::atomic::Ordering::SeqCst);
    let mut tries: u64 = 0;
    while tries < u64::MAX
        decreases u64::MAX - tries,
    {
        if observed == u64::MAX {
            return ;
        }
        let outcome = cell.compare_exchange(
            observed,
            observed + 1,
            core::sync::atomic::Ordering::SeqCst,
            core::sync::atomic::Ordering::SeqCst,
        );
        match outcome {
            Ok(_) => {
                return ;
            },
            Err(actual) => {
                observed = actual;
            },
        }
        tries = tries + 1;
    }
}

/// The same atomic saturating increment for the `usize` total-store counter.
fn saturating_increment_usize(counter: &AtomicUsize) {
    let mut observed = counter.load(core::sync::atomic::Ordering::SeqCst);
    let mut tries: usize = 0;
    while tries < usize::MAX
        decreases usize::MAX - tries,
    {
        if observed == usize::MAX {
            return ;
        }
        let outcome = counter.compare_exchange(
            observed,
            observed + 1,
            core::sync::atomic::Ordering::SeqCst,
            core::sync::atomic::Ordering::SeqCst,
        );
        match outcome {
            Ok(_) => {
                return ;
            },
            Err(actual) => {
                observed = actual;
            },
        }
        tries = tries + 1;
    }
}

/// A Count-Min Sketch counting keys of type `K`, safe to share across
/// threads: stores go through `&self` and per-cell atomics.
pub struct ConcurrentCountMinSketch<K: SketchKey> {
    width: usize,
    depth: usize,
    rows: Vec<Vec<AtomicU64>>,
    counter: AtomicUsize,
    _phantom: PhantomData<K>,
}

impl<K: SketchKey> ConcurrentCountMinSketch<K> {
    /// Number of columns (buckets) per row; fixed at construction.
    pub closed spec fn spec_width(&self) -> int {
        self.width as int
    }

    /// Number of rows (independent hash functions); fixed at construction.
    pub closed spec fn spec_depth(&self) -> int {
        self.depth as int
    }

    /// Well-formedness: positive dimensions and a full `depth x width`
    /// matrix. The cell values themselves are shared state with no sequential
    /// invariant.
    pub closed spec fn wf(&self) -> bool {
        &&& 1 <= self.width
        &&& 1 <= self.depth
        &&& self.rows@.len() == self.depth
        &&& (forall|r: int| #![trigger self.rows@[r]]
            0 <= r < self.depth ==> self.rows@[r]@.len() == self.width)
    }

    /// Create a shared sketch with all counters zeroed. As for the
    /// sequential sketch, a zero width or depth is rejected with
    /// `InvalidDimension` at construction.
    pub fn new(width: usize, depth: usize) -> (result: Result<Self, InvalidDimension>)
        ensures
            result is Ok <==> (1 <= width && 1 <= depth),
            result is Err ==> result == Err::<Self, InvalidDimension>(InvalidDimension),
            result matches Ok(sketch) ==> {
                &&& sketch.wf()
                &&& sketch.spec_width() == width
                &&& sketch.spec_depth() == depth
            },
    {
        if width == 0 || depth == 0 {
            return Err(InvalidDimension);
        }
        let mut rows: Vec<Vec<AtomicU64>> = Vec::new();
        let mut r: usize = 0;
        while r < depth
            invariant
                r <= depth,
                rows@.len() == r,
                forall|rr: int| #![trigger rows@[rr]] 0 <= rr < r ==> rows@[rr]@.len() == width,
            decreases depth - r,
        {
            let mut row: Vec<AtomicU64> = Vec::new();
            let mut c: usize = 0;
            while c < width
                invariant
                    c <= width,
                    row@.len() == c,
                decreases width - c,
            {
                row.push(AtomicU64::new(0));
                c = c + 1;
            }
            rows.push(row);
            r = r + 1;
        }
        Ok(
            ConcurrentCountMinSketch {
                width,
                depth,
                rows,
                counter: AtomicUsize::new(0),
                _phantom: PhantomData,
            },
        )
    }

    /// Record one occurrence of `key` in a shared sketch: in every row, the
    /// cell the key hashes to — the same cell the sequential sketch would
    /// pick — goes up by one atomically and saturating, and so does the
    /// total-store counter. Safe to call concurrently with itself and with
    /// the read paths; each row increment is its own atomic unit.
    pub fn store_parallel(&self, key: &K)
        requires
            self.wf(),
    {
        let bytes = key.to_bytes();
        let mut r: usize = 0;
        while r < self.depth
            invariant
                self.wf(),
                r <= self.depth,
            decreases self.depth - r,
        {
            let col = crate::hashing::column_index(r, bytes.as_slice(), self.width);
            saturating_increment_u64(&self.rows[r][col]);
            r = r + 1;
        }
        saturating_increment_usize(&self.counter);
    }

    /// Estimate how many times `key` has been stored: the minimum, over the
    /// rows, of the cell the key hashes to, each read atomically. Pure read;
    /// concurrent stores may or may not be visible yet, but a cell is only
    /// ever inflated by collisions, never deflated, so the estimate is never
    /// below the stores committed before the call.
    pub fn count(&self, key: &K) -> (estimate: u64)
        requires
            self.wf(),
    {
        let bytes = key.to_bytes();
        let mut cells: Vec<u64> = Vec::new();
        let mut r: usize = 0;
        while r < self.depth
            invariant
                self.wf(),
                r <= self.depth,
                cells@.len() == r,
            decreases self.depth - r,
        {
            let col = crate::hashing::column_index(r, bytes.as_slice(), self.width);
            cells.push(self.rows[r][col].load(core::sync::atomic::Ordering::SeqCst));
            r = r + 1;
        }
        min_value(&cells)
    }

    /// The number of stores applied to this shared sketch so far (clamped at
    /// the counter's maximum), independent of key identity.
    pub fn total_count(&self) -> (total: usize)
        requires
            self.wf(),
    {
        self.counter.load(core::sync::atomic::Ordering::SeqCst)
    }
}

} // verus!
