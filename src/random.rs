use rand::Rng;
use vstd::prelude::*;

verus! {

/// Relies on `rand::Rng::gen_range` over `rand::thread_rng()`: the value lies
/// in `0..bound`. `gen_range` panics on an empty range, hence `bound > 0`.
#[verifier::external_body]
fn draw_below(bound: u64) -> (r: u64)
    requires
        bound > 0,
    ensures
        r < bound,
{
    rand::thread_rng().gen_range(0..bound)
}

/// A value drawn uniformly from `low..high`.
pub fn draw_in(low: u64, high: u64) -> (r: u64)
    requires
        low < high,
    ensures
        low <= r < high,
{
    let d = draw_below(high - low);
    low + d
}

/// Sum of the first `n` weights of a table.
pub open spec fn weight_prefix(w: Seq<u64>, n: int) -> int
    decreases n,
{
    if n <= 0 || n > w.len() {
        0
    } else {
        weight_prefix(w, n - 1) + w[n - 1]
    }
}

proof fn lemma_prefix_monotone(w: Seq<u64>, i: int, j: int)
    requires
        0 <= i <= j <= w.len(),
    ensures
        weight_prefix(w, i) <= weight_prefix(w, j),
    decreases j - i,
{
    if i < j {
        lemma_prefix_monotone(w, i, j - 1);
    }
}

/// Index of the table entry that a draw below the table's total weight
/// selects: entry `i` owns the draws from the sum of the weights before it
/// up to, not including, that sum plus its own weight.
pub fn pick_weighted(weights: &Vec<u64>, draw: u64) -> (r: usize)
    requires
        draw < weight_prefix(weights@, weights@.len() as int),
    ensures
        r < weights@.len(),
        weight_prefix(weights@, r as int) <= draw < weight_prefix(weights@, r + 1),
{
    let mut i: usize = 0;
    let mut acc: u64 = 0;
    while i < weights.len()
        invariant
            0 <= i <= weights@.len(),
            acc == weight_prefix(weights@, i as int),
            acc <= draw,
            draw < weight_prefix(weights@, weights@.len() as int),
        decreases weights@.len() - i,
    {
        proof {
            lemma_prefix_monotone(weights@, i + 1, weights@.len() as int);
        }
        if draw - acc < weights[i] {
            return i;
        }
        acc = acc + weights[i];
        i = i + 1;
    }
    i
}

/// A table index drawn with probability proportional to its weight.
pub fn sample_weighted(weights: &Vec<u64>) -> (r: usize)
    requires
        0 < weight_prefix(weights@, weights@.len() as int) <= u64::MAX,
    ensures
        r < weights@.len(),
        weights@[r as int] > 0,
{
    let mut total: u64 = 0;
    let mut i: usize = 0;
    while i < weights.len()
        invariant
            0 <= i <= weights@.len(),
            total == weight_prefix(weights@, i as int),
            weight_prefix(weights@, weights@.len() as int) <= u64::MAX,
        decreases weights@.len() - i,
    {
        proof {
            lemma_prefix_monotone(weights@, i + 1, weights@.len() as int);
        }
        total = total + weights[i];
        i = i + 1;
    }
    let d = draw_below(total);
    pick_weighted(weights, d)
}

} // verus!
