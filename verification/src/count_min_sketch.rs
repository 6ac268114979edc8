//! The sequential Count-Min Sketch.
//!
//! A fixed `depth x width` matrix of saturating `u64` counters, one row per
//! keyed hash function, plus a running total of stores. `store` increments
//! one cell per row; `query` returns the minimum cell over the rows, which is
//! never below the true number of stores of the queried key. This type is for
//! one caller at a time (`store` takes `&mut self`); for shared lock-free use
//! see the concurrent variant.

use crate::hashing::col_of;
use crate::keys::SketchKey;
use crate::model::{
    count_hits, count_key, lemma_count_hits_push, lemma_count_key_push, lemma_fresh_query_zero,
    lemma_min_hits_push, lemma_no_false_negatives, lemma_sat64_min, lemma_sat64_mono,
    lemma_sat64_shift, lemma_sat_usize_shift, min_hits, query_model, row_hits, sat64, sat_usize,
};
use core::marker::PhantomData;
use vstd::prelude::*;

verus! {

/// The construction failure: a width or depth of zero was asked for.
#[derive(Clone, Copy, Debug, PartialEq, Eq, Structural)]
pub struct InvalidDimension;

/// A Count-Min Sketch counting keys of type `K`.
pub struct CountMinSketch<K: SketchKey> {
    width: usize,
    depth: usize,
    rows: Vec<Vec<u64>>,
    counter: usize,
    history: Ghost<Seq<Seq<u8>>>,
    _phantom: PhantomData<K>,
}

impl<K: SketchKey> CountMinSketch<K> {
    /// Number of columns (buckets) per row; fixed at construction.
    pub closed spec fn spec_width(&self) -> int {
        self.width as int
    }

    /// Number of rows (independent hash functions); fixed at construction.
    pub closed spec fn spec_depth(&self) -> int {
        self.depth as int
    }

    /// The encodings of the keys stored so far, in store order.
    pub closed spec fn stored_keys(&self) -> Seq<Seq<u8>> {
        self.history@
    }

    /// The value of the total-store counter.
    pub closed spec fn spec_total(&self) -> usize {
        self.counter
    }

    /// Well-formedness: positive dimensions, a full matrix, every cell the
    /// clamped hit count of its position, and the total counter the clamped
    /// length of the history. Constructors establish it and every method
    /// preserves it.
    pub closed spec fn wf(&self) -> bool {
        &&& 1 <= self.width
        &&& 1 <= self.depth
        &&& self.rows@.len() == self.depth
        &&& (forall|r: int| #![trigger self.rows@[r]]
            0 <= r < self.depth ==> self.rows@[r]@.len() == self.width)
        &&& (forall|r: int, c: int| #![trigger self.rows@[r]@[c]]
            0 <= r < self.depth && 0 <= c < self.width ==> self.rows@[r]@[c] == sat64(
                count_hits(self.history@, r, c, self.width as int) as int,
            ))
        &&& self.counter == sat_usize(self.history@.len() as int)
    }

    /// What a query of the key encoded as `kb` returns on the current state.
    pub open spec fn query_spec(&self, kb: Seq<u8>) -> u64 {
        query_model(self.stored_keys(), kb, self.spec_width(), self.spec_depth())
    }

    /// Create a sketch with all counters zeroed. Both dimensions must be
    /// positive; a zero width or depth is rejected with `InvalidDimension`
    /// here, never deferred to first use.
    pub fn new(width: usize, depth: usize) -> (result: Result<Self, InvalidDimension>)
        ensures
            result is Ok <==> (1 <= width && 1 <= depth),
            result is Err ==> result == Err::<Self, InvalidDimension>(InvalidDimension),
            result matches Ok(sketch) ==> {
                &&& sketch.wf()
                &&& sketch.spec_width() == width
                &&& sketch.spec_depth() == depth
                &&& sketch.stored_keys() == Seq::<Seq<u8>>::empty()
                &&& sketch.spec_total() == 0
                &&& forall|kb: Seq<u8>| sketch.query_spec(kb) == 0
            },
    {
        if width == 0 || depth == 0 {
            return Err(InvalidDimension);
        }
        let mut rows: Vec<Vec<u64>> = Vec::new();
        let mut r: usize = 0;
        while r < depth
            invariant
                r <= depth,
                rows@.len() == r,
                forall|rr: int| #![trigger rows@[rr]] 0 <= rr < r ==> rows@[rr]@.len() == width,
                forall|rr: int, c: int| #![trigger rows@[rr]@[c]]
                    0 <= rr < r && 0 <= c < width ==> rows@[rr]@[c] == 0u64,
            decreases depth - r,
        {
            let mut row: Vec<u64> = Vec::new();
            let mut c: usize = 0;
            while c < width
                invariant
                    c <= width,
                    row@.len() == c,
                    forall|i: int| 0 <= i < c ==> row@[i] == 0u64,
                decreases width - c,
            {
                row.push(0);
                c = c + 1;
            }
            rows.push(row);
            r = r + 1;
        }
        let sketch = CountMinSketch {
            width,
            depth,
            rows,
            counter: 0,
            history: Ghost(Seq::empty()),
            _phantom: PhantomData,
        };
        proof {
            assert forall|kb: Seq<u8>| sketch.query_spec(kb) == 0 by {
                lemma_fresh_query_zero(kb, width as int, depth as int);
            }
        }
        Ok(sketch)
    }

    /// The column the given row's hash function selects for `key`.
    fn hash_with_seed(&self, key: &K, seed: usize) -> (hash: u64)
        requires
            1 <= self.spec_width(),
        ensures
            hash as int == col_of(seed as int, key.key_bytes(), self.spec_width()),
            hash < self.spec_width(),
    {
        let bytes = key.to_bytes();
        crate::hashing::column_index(seed, bytes.as_slice(), self.width) as u64
    }

    /// Record one occurrence of `key`: in every row, the cell the key hashes
    /// to goes up by one (saturating), and so does the total-store counter.
    ///
    /// The `count_key` clauses track the true counts: the stored key's rises
    /// by one, every other key's is untouched. The `query_spec` clauses are
    /// the estimator's monotonicity: no estimate ever drops, and the stored
    /// key's own estimate rises by exactly one, clamped at the counter
    /// maximum.
    pub fn store(&mut self, key: &K)
        requires
            old(self).wf(),
        ensures
            final(self).wf(),
            final(self).spec_width() == old(self).spec_width(),
            final(self).spec_depth() == old(self).spec_depth(),
            final(self).stored_keys() == old(self).stored_keys().push(key.key_bytes()),
            final(self).spec_total() == sat_usize(old(self).stored_keys().len() as int + 1),
            count_key(final(self).stored_keys(), key.key_bytes()) == count_key(
                old(self).stored_keys(),
                key.key_bytes(),
            ) + 1,
            forall|other: Seq<u8>|
                other != key.key_bytes() ==> count_key(final(self).stored_keys(), other)
                    == count_key(old(self).stored_keys(), other),
            forall|other: Seq<u8>| final(self).query_spec(other) >= old(self).query_spec(other),
            final(self).query_spec(key.key_bytes()) == sat64(
                old(self).query_spec(key.key_bytes()) + 1,
            ),
    {
        let ghost h0 = self.history@;
        let ghost kbv = key.key_bytes();
        let ghost w = self.width as int;
        let depth = self.depth;
        let mut r: usize = 0;
        while r < depth
            invariant
                r <= depth,
                depth == self.depth,
                self.width == old(self).width,
                self.depth == old(self).depth,
                self.counter == old(self).counter,
                self.history@ == h0,
                h0 == old(self).history@,
                kbv == key.key_bytes(),
                old(self).wf(),
                1 <= self.width,
                self.rows@.len() == self.depth,
                forall|rr: int| #![trigger self.rows@[rr]]
                    0 <= rr < self.depth ==> self.rows@[rr]@.len() == self.width,
                forall|rr: int, c: int| #![trigger self.rows@[rr]@[c]]
                    0 <= rr < r && 0 <= c < self.width ==> self.rows@[rr]@[c] == sat64(
                        count_hits(h0.push(kbv), rr, c, self.width as int) as int,
                    ),
                forall|rr: int, c: int| #![trigger self.rows@[rr]@[c]]
                    r <= rr < self.depth && 0 <= c < self.width ==> self.rows@[rr]@[c] == sat64(
                        count_hits(h0, rr, c, self.width as int) as int,
                    ),
            decreases depth - r,
        {
            let hash = self.hash_with_seed(key, r);
            let col = hash as usize;
            let cur = self.rows[r][col];
            self.rows[r][col] = cur.saturating_add(1);
            proof {
                assert forall|c: int| 0 <= c < self.width implies self.rows@[r as int]@[c]
                    == sat64(count_hits(h0.push(kbv), r as int, c, self.width as int) as int) by {
                    lemma_count_hits_push(h0, kbv, r as int, c, self.width as int);
                    if c == col_of(r as int, kbv, self.width as int) {
                        lemma_sat64_shift(count_hits(h0, r as int, c, self.width as int), 1);
                    }
                }
            }
            r = r + 1;
        }
        self.counter = self.counter.saturating_add(1);
        self.history = Ghost(h0.push(kbv));
        proof {
            lemma_sat_usize_shift(h0.len(), 1);
            let d = self.depth as int;
            lemma_count_key_push(h0, kbv, kbv);
            assert forall|other: Seq<u8>| other != kbv implies count_key(h0.push(kbv), other)
                == count_key(h0, other) by {
                lemma_count_key_push(h0, kbv, other);
            }
            assert forall|other: Seq<u8>| self.query_spec(other) >= old(self).query_spec(other) by {
                lemma_min_hits_push(h0, kbv, other, w, d);
                lemma_sat64_mono(
                    min_hits(h0, other, w, d) as int,
                    min_hits(h0.push(kbv), other, w, d) as int,
                );
            }
            lemma_min_hits_push(h0, kbv, kbv, w, d);
            lemma_sat64_shift(min_hits(h0, kbv, w, d), 1);
        }
    }

    /// Estimate how many times `key` has been stored: the minimum, over the
    /// rows, of the cell the key hashes to. The estimate is exactly the
    /// model's value for the current history, and in particular never below
    /// the (clamped) true number of stores of `key` — the error is one-sided.
    pub fn query(&self, key: &K) -> (estimate: u64)
        requires
            self.wf(),
        ensures
            estimate == self.query_spec(key.key_bytes()),
            estimate >= sat64(count_key(self.stored_keys(), key.key_bytes()) as int),
    {
        let ghost h = self.history@;
        let ghost kbv = key.key_bytes();
        let ghost w = self.width as int;
        let mut best: u64 = u64::MAX;
        let mut r: usize = 0;
        while r < self.depth
            invariant
                self.wf(),
                kbv == key.key_bytes(),
                h == self.history@,
                w == self.width as int,
                r <= self.depth,
                r == 0 ==> best == u64::MAX,
                1 <= r ==> best == sat64(min_hits(h, kbv, w, r as int) as int),
            decreases self.depth - r,
        {
            let hash = self.hash_with_seed(key, r);
            let cell = self.rows[r][hash as usize];
            proof {
                assert(cell == sat64(row_hits(h, r as int, kbv, w) as int));
                if r >= 1 {
                    lemma_sat64_min(min_hits(h, kbv, w, r as int), row_hits(h, r as int, kbv, w));
                }
            }
            if cell < best {
                best = cell;
            }
            r = r + 1;
        }
        proof {
            lemma_no_false_negatives(h, kbv, w, self.depth as int);
        }
        best
    }

    /// The number of `store` calls made since construction (clamped at the
    /// counter's maximum), independent of key identity.
    pub fn total_count(&self) -> (total: usize)
        requires
            self.wf(),
        ensures
            total == self.spec_total(),
            total == sat_usize(self.stored_keys().len() as int),
    {
        self.counter
    }
}

} // verus!
