//! The sampling core: a prefix-sum linear scan against a uniform variate.
//!
//! Weights are fixed-point numbers: a weight `w` stands for the real number
//! `w / SCALE`, and a variate `u < SCALE` stands for `u / SCALE` in `[0, 1)`.

use vstd::prelude::*;

verus! {

/// The fixed-point scale: a weight or variate `v` stands for `v / SCALE`.
pub const SCALE: u64 = 1_000_000_000;

/// The sum of the first `k` weights.
pub open spec fn prefix_sum(w: Seq<u64>, k: int) -> int
    decreases k,
{
    if k <= 0 {
        0
    } else {
        prefix_sum(w, k - 1) + w[k - 1]
    }
}

/// Prefix sums never decrease as more weights are added.
pub proof fn lemma_prefix_sum_monotonic(w: Seq<u64>, k1: int, k2: int)
    requires
        0 <= k1 <= k2,
    ensures
        0 <= prefix_sum(w, k1) <= prefix_sum(w, k2),
    decreases k2,
{
    if k1 < k2 {
        lemma_prefix_sum_monotonic(w, k1, k2 - 1);
    } else if k1 > 0 {
        lemma_prefix_sum_monotonic(w, 0, k1 - 1);
    }
}

/// `i` is the index that the scan draws for the variate `u`: the smallest
/// index with `u < prefix_sum(w, i + 1)`, or the last index when no prefix
/// sum exceeds `u` (the tail fallback).
pub open spec fn is_drawn_index(w: Seq<u64>, u: u64, i: int) -> bool {
    &&& 0 <= i < w.len()
    &&& (u < prefix_sum(w, i + 1) || i == w.len() - 1)
    &&& (forall|k: int| 1 <= k <= i ==> #[trigger] prefix_sum(w, k) <= u)
}

/// Rejected input: an empty weight vector.
#[derive(Clone, Copy, Debug, PartialEq, Eq, Structural)]
pub enum SampleError {
    InvalidInput,
}

/// Draws the index selected by the variate `u`: the smallest `i` with
/// `u < prefix_sum(w, i + 1)`, or the last index when no prefix sum exceeds
/// `u`. An empty weight vector is rejected.
pub fn sample(state: &Vec<u64>, u: u64) -> (result: Result<usize, SampleError>)
    requires
        u < SCALE,
    ensures
        match result {
            Ok(i) => state@.len() > 0 && i < state@.len() && is_drawn_index(state@, u, i as int),
            Err(e) => state@.len() == 0 && e == SampleError::InvalidInput,
        },
{
    if state.len() == 0 {
        return Err(SampleError::InvalidInput);
    }
    let mut sum: u128 = 0;
    let mut i: usize = 0;
    while i < state.len()
        invariant
            i <= state@.len(),
            state@.len() > 0,
            sum == prefix_sum(state@, i as int),
            sum <= u,
            forall|k: int| 1 <= k <= i ==> #[trigger] prefix_sum(state@, k) <= u,
        decreases state@.len() - i,
    {
        let new_sum: u128 = sum + (state[i] as u128);
        if (u as u128) < new_sum {
            return Ok(i);
        }
        sum = new_sum;
        i = i + 1;
    }
    Ok(state.len() - 1)
}

/// Sampling is deterministic: one weight vector and one variate select
/// exactly one index, so equal inputs always produce equal draws.
pub proof fn lemma_drawn_index_unique(w: Seq<u64>, u: u64, i1: int, i2: int)
    requires
        is_drawn_index(w, u, i1),
        is_drawn_index(w, u, i2),
    ensures
        i1 == i2,
{
    if i1 < i2 {
        assert(prefix_sum(w, i1 + 1) <= u);
    }
    if i2 < i1 {
        assert(prefix_sum(w, i2 + 1) <= u);
    }
}

/// When the weights fill the whole scale, every variate falls into some
/// bucket and the drawn index is the smallest index whose prefix sum
/// exceeds the variate.
pub proof fn lemma_normalized_smallest_index(w: Seq<u64>, u: u64, i: int)
    requires
        prefix_sum(w, w.len() as int) == SCALE,
        u < SCALE,
        is_drawn_index(w, u, i),
    ensures
        u < prefix_sum(w, i + 1),
        forall|j: int| 0 <= j < i ==> #[trigger] prefix_sum(w, j + 1) <= u,
{
}

/// The tail fallback: whenever the variate lies at or above the total
/// weight — possible for a variate within the scale only when the weights
/// sum to less than the full scale — the drawn index is the last one.
pub proof fn lemma_tail_fallback(w: Seq<u64>, u: u64, i: int)
    requires
        is_drawn_index(w, u, i),
        prefix_sum(w, w.len() as int) <= u,
    ensures
        i == w.len() - 1,
{
    if i < w.len() - 1 {
        lemma_prefix_sum_monotonic(w, i + 1, w.len() as int);
    }
}

/// A zero-weight bucket is never drawn except as the tail fallback: a drawn
/// index with weight zero is the last index, reached only because the
/// variate lies at or above the total weight.
pub proof fn lemma_zero_weight_unreachable(w: Seq<u64>, u: u64, i: int)
    requires
        is_drawn_index(w, u, i),
        w[i] == 0,
    ensures
        i == w.len() - 1,
        prefix_sum(w, w.len() as int) <= u,
{
    assert(prefix_sum(w, i + 1) == prefix_sum(w, i) + w[i]);
    if u < prefix_sum(w, i + 1) {
        assert(prefix_sum(w, i) <= u);
        assert(false);
    }
}

/// The variates that draw index `i` are exactly the half-open band from
/// `prefix_sum(w, i)` to `prefix_sum(w, i + 1)`, whose width is `w[i]`:
/// when the weights fill the whole scale, each index is drawn for a share
/// of the variate space proportional to its weight.
pub proof fn lemma_weight_share(w: Seq<u64>, u: u64, i: int)
    requires
        prefix_sum(w, w.len() as int) == SCALE,
        u < SCALE,
        0 <= i < w.len(),
    ensures
        is_drawn_index(w, u, i) <==> prefix_sum(w, i) <= u < prefix_sum(w, i + 1),
        prefix_sum(w, i + 1) - prefix_sum(w, i) == w[i],
{
    if prefix_sum(w, i) <= u < prefix_sum(w, i + 1) {
        assert forall|k: int| 1 <= k <= i implies #[trigger] prefix_sum(w, k) <= u by {
            lemma_prefix_sum_monotonic(w, k, i);
        }
        assert(is_drawn_index(w, u, i));
    }
    if is_drawn_index(w, u, i) {
        assert(i > 0 ==> prefix_sum(w, i) <= u);
        assert(u < prefix_sum(w, i + 1));
    }
}

/// Draws a fresh uniform variate `u` in `[0, SCALE)` and returns the index
/// it selects together with `u` itself, so that a caller can report the
/// exact variate that produced the draw. An empty weight vector is rejected.
pub fn collapse_wave_fn(state: Vec<u64>) -> (result: Result<(usize, u64), SampleError>)
    ensures
        match result {
            Ok(pair) => {
                &&& state@.len() > 0
                &&& pair.1 < SCALE
                &&& is_drawn_index(state@, pair.1, pair.0 as int)
            },
            Err(e) => state@.len() == 0 && e == SampleError::InvalidInput,
        },
{
    let u = crate::entropy::draw_uniform(SCALE);
    match sample(&state, u) {
        Ok(i) => Ok((i, u)),
        Err(e) => Err(e),
    }
}

/// Synthesizes the default weight vector: three fresh uniform draws in
/// `[0, SCALE)`. These are not normalized, so drawing from them may lean on
/// the tail fallback of `sample`.
pub fn default_state() -> (state: Vec<u64>)
    ensures
        state@.len() == 3,
        forall|j: int| 0 <= j < 3 ==> #[trigger] state@[j] < SCALE,
{
    let mut state: Vec<u64> = Vec::new();
    state.push(crate::entropy::draw_uniform(SCALE));
    state.push(crate::entropy::draw_uniform(SCALE));
    state.push(crate::entropy::draw_uniform(SCALE));
    state
}

/// Uses the requested weight vector verbatim when one was supplied, and
/// synthesizes the three-draw default otherwise.
pub fn resolve_state(requested: Option<Vec<u64>>) -> (state: Vec<u64>)
    ensures
        match requested {
            Some(v) => state@ == v@,
            None => state@.len() == 3 && forall|j: int| 0 <= j < 3 ==> #[trigger] state@[j]
                < SCALE,
        },
{
    match requested {
        Some(v) => v,
        None => default_state(),
    }
}

} // verus!
