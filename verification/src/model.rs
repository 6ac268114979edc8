//! The mathematical model of a sketch.
//!
//! A sketch's visible state is determined by the sequence of key encodings
//! stored so far (its history), together with its fixed width and depth:
//! every cell holds the clamped number of stores that hashed to it, and a
//! query returns the clamped minimum over the rows. The functions here state
//! that model, and the lemmas prove the estimator's laws over it: a query is
//! never below the true store count of the key, more stores never lower an
//! estimate, storing one key `n` more times raises its estimate by exactly
//! `n` (up to saturation), a saturated estimate is pinned at the counter
//! maximum, and a fresh history estimates zero everywhere.

use crate::hashing::col_of;
use vstd::prelude::*;

verus! {

/// Clamp a mathematical count to what a `u64` counter cell can hold.
pub open spec fn sat64(n: int) -> u64 {
    if n <= 0 {
        0u64
    } else if n >= u64::MAX as int {
        u64::MAX
    } else {
        n as u64
    }
}

/// Clamp a mathematical count to what the `usize` total-store counter can hold.
pub open spec fn sat_usize(n: int) -> usize {
    if n <= 0 {
        0usize
    } else if n >= usize::MAX as int {
        usize::MAX
    } else {
        n as usize
    }
}

/// The smaller of two mathematical counts.
pub open spec fn min_nat(a: nat, b: nat) -> nat {
    if a <= b {
        a
    } else {
        b
    }
}

/// Clamping is monotone: a larger true count never shows as a smaller cell.
pub proof fn lemma_sat64_mono(a: int, b: int)
    requires
        a <= b,
    ensures
        sat64(a) <= sat64(b),
{
}

/// Clamping commutes with taking the minimum of two counts.
pub proof fn lemma_sat64_min(a: nat, b: nat)
    ensures
        sat64(min_nat(a, b) as int) == if sat64(a as int) <= sat64(b as int) {
            sat64(a as int)
        } else {
            sat64(b as int)
        },
{
}

/// Adding to a count and then clamping equals clamping first and then doing a
/// saturating addition: the cell value after `n` more hits is determined by
/// the cell value before them.
pub proof fn lemma_sat64_shift(m: nat, n: nat)
    ensures
        sat64(m + n as int) == sat64(sat64(m as int) + n as int),
{
}

/// The `sat_usize` twin of `lemma_sat64_shift`, for the total-store counter.
pub proof fn lemma_sat_usize_shift(m: nat, n: nat)
    ensures
        sat_usize(m + n as int) == sat_usize(sat_usize(m as int) + n as int),
{
}

/// How many stores in the history `h` hit the cell at row `row`, column
/// `col`, in a sketch of width `width`.
pub open spec fn count_hits(h: Seq<Seq<u8>>, row: int, col: int, width: int) -> nat
    decreases h.len(),
{
    if h.len() == 0 {
        0
    } else {
        count_hits(h.drop_last(), row, col, width) + if col_of(row, h.last(), width) == col {
            1nat
        } else {
            0nat
        }
    }
}

/// The true count: how many stores in the history `h` were of the key whose
/// encoding is `kb`.
pub open spec fn count_key(h: Seq<Seq<u8>>, kb: Seq<u8>) -> nat
    decreases h.len(),
{
    if h.len() == 0 {
        0
    } else {
        count_key(h.drop_last(), kb) + if h.last() == kb {
            1nat
        } else {
            0nat
        }
    }
}

/// How many stores hit the cell that row `row` assigns to the key `kb`.
pub open spec fn row_hits(h: Seq<Seq<u8>>, row: int, kb: Seq<u8>, width: int) -> nat {
    count_hits(h, row, col_of(row, kb, width), width)
}

/// The smallest `row_hits` over the first `depth` rows (`depth >= 1`).
pub open spec fn min_hits(h: Seq<Seq<u8>>, kb: Seq<u8>, width: int, depth: int) -> nat
    decreases depth,
{
    if depth <= 1 {
        row_hits(h, 0, kb, width)
    } else {
        min_nat(min_hits(h, kb, width, depth - 1), row_hits(h, depth - 1, kb, width))
    }
}

/// What a query of key `kb` returns on a sketch of the given dimensions whose
/// history is `h`: the clamped minimum cell over the rows.
pub open spec fn query_model(h: Seq<Seq<u8>>, kb: Seq<u8>, width: int, depth: int) -> u64 {
    sat64(min_hits(h, kb, width, depth) as int)
}

/// One more store changes a cell's hit count by one if the store hashes to
/// that cell, and not at all otherwise.
pub proof fn lemma_count_hits_push(h: Seq<Seq<u8>>, x: Seq<u8>, row: int, col: int, width: int)
    ensures
        count_hits(h.push(x), row, col, width) == count_hits(h, row, col, width) + if col_of(
            row,
            x,
            width,
        ) == col {
            1nat
        } else {
            0nat
        },
{
    assert(h.push(x).drop_last() =~= h);
}

/// One more store changes a key's true count by one if it stores that key.
pub proof fn lemma_count_key_push(h: Seq<Seq<u8>>, x: Seq<u8>, kb: Seq<u8>)
    ensures
        count_key(h.push(x), kb) == count_key(h, kb) + if x == kb {
            1nat
        } else {
            0nat
        },
{
    assert(h.push(x).drop_last() =~= h);
}

/// Every row's cell for a key counts at least every store of that key: a
/// store of `kb` hashes to `kb`'s own cell in every row.
pub proof fn lemma_key_le_row_hits(h: Seq<Seq<u8>>, row: int, kb: Seq<u8>, width: int)
    ensures
        count_key(h, kb) <= row_hits(h, row, kb, width),
    decreases h.len(),
{
    if h.len() > 0 {
        lemma_key_le_row_hits(h.drop_last(), row, kb, width);
    }
}

/// The minimum over the rows still counts at least every store of the key.
pub proof fn lemma_key_le_min_hits(h: Seq<Seq<u8>>, kb: Seq<u8>, width: int, depth: int)
    ensures
        count_key(h, kb) <= min_hits(h, kb, width, depth),
    decreases depth,
{
    if depth <= 1 {
        lemma_key_le_row_hits(h, 0, kb, width);
    } else {
        lemma_key_le_min_hits(h, kb, width, depth - 1);
        lemma_key_le_row_hits(h, depth - 1, kb, width);
    }
}

/// No false negatives: a query result is never below the (clamped) true
/// number of stores of the queried key.
pub proof fn lemma_no_false_negatives(h: Seq<Seq<u8>>, kb: Seq<u8>, width: int, depth: int)
    ensures
        query_model(h, kb, width, depth) >= sat64(count_key(h, kb) as int),
{
    lemma_key_le_min_hits(h, kb, width, depth);
    lemma_sat64_mono(count_key(h, kb) as int, min_hits(h, kb, width, depth) as int);
}

/// One store moves every row's minimum-relevant cell up by at most one, and
/// by exactly one in every row when the stored key is the queried key.
pub proof fn lemma_min_hits_push(h: Seq<Seq<u8>>, x: Seq<u8>, kb: Seq<u8>, width: int, depth: int)
    ensures
        min_hits(h, kb, width, depth) <= min_hits(h.push(x), kb, width, depth) <= min_hits(
            h,
            kb,
            width,
            depth,
        ) + 1,
        x == kb ==> min_hits(h.push(x), kb, width, depth) == min_hits(h, kb, width, depth) + 1,
    decreases depth,
{
    lemma_count_hits_push(h, x, 0, col_of(0, kb, width), width);
    lemma_count_hits_push(h, x, depth - 1, col_of(depth - 1, kb, width), width);
    if depth > 1 {
        lemma_min_hits_push(h, x, kb, width, depth - 1);
    }
}

/// Monotonicity: further stores, of any keys, never lower an estimate.
pub proof fn lemma_query_monotone(
    h: Seq<Seq<u8>>,
    extra: Seq<Seq<u8>>,
    kb: Seq<u8>,
    width: int,
    depth: int,
)
    ensures
        min_hits(h, kb, width, depth) <= min_hits(h + extra, kb, width, depth),
        query_model(h, kb, width, depth) <= query_model(h + extra, kb, width, depth),
    decreases extra.len(),
{
    if extra.len() == 0 {
        assert(h + extra =~= h);
    } else {
        lemma_query_monotone(h, extra.drop_last(), kb, width, depth);
        assert(h + extra =~= (h + extra.drop_last()).push(extra.last()));
        lemma_min_hits_push(h + extra.drop_last(), extra.last(), kb, width, depth);
        lemma_sat64_mono(
            min_hits(h, kb, width, depth) as int,
            min_hits(h + extra, kb, width, depth) as int,
        );
    }
}

/// Storing one key `n` more times raises that key's estimate by exactly `n`,
/// clamped at the counter maximum: collisions can inflate an estimate, but
/// stores of the key itself account one for one.
pub proof fn lemma_repeated_store(h: Seq<Seq<u8>>, kb: Seq<u8>, n: nat, width: int, depth: int)
    ensures
        min_hits(h + Seq::new(n, |i: int| kb), kb, width, depth) == min_hits(h, kb, width, depth)
            + n,
        query_model(h + Seq::new(n, |i: int| kb), kb, width, depth) == sat64(
            query_model(h, kb, width, depth) + n as int,
        ),
    decreases n,
{
    let reps = Seq::new(n, |i: int| kb);
    if n == 0 {
        assert(h + reps =~= h);
    } else {
        let fewer = Seq::new((n - 1) as nat, |i: int| kb);
        lemma_repeated_store(h, kb, (n - 1) as nat, width, depth);
        assert(h + reps =~= (h + fewer).push(kb));
        lemma_min_hits_push(h + fewer, kb, kb, width, depth);
    }
    lemma_sat64_shift(min_hits(h, kb, width, depth), n);
}

/// Saturation: once a key has been stored at least as often as a cell can
/// count, its estimate is pinned at the counter maximum and stays there.
pub proof fn lemma_saturated_query(h: Seq<Seq<u8>>, kb: Seq<u8>, width: int, depth: int)
    requires
        count_key(h, kb) >= u64::MAX,
    ensures
        query_model(h, kb, width, depth) == u64::MAX,
{
    lemma_key_le_min_hits(h, kb, width, depth);
}

/// Zero state: with nothing stored yet, every key's estimate is zero.
pub proof fn lemma_fresh_query_zero(kb: Seq<u8>, width: int, depth: int)
    ensures
        query_model(Seq::empty(), kb, width, depth) == 0,
{
    lemma_min_hits_empty(kb, width, depth);
}

proof fn lemma_min_hits_empty(kb: Seq<u8>, width: int, depth: int)
    ensures
        min_hits(Seq::empty(), kb, width, depth) == 0,
    decreases depth,
{
    if depth > 1 {
        lemma_min_hits_empty(kb, width, depth - 1);
    }
}

} // verus!
