//! The weighted categorical sampler.
//!
//! A category-rate table (category, weight) becomes a cumulative threshold
//! table once; a draw is one uniform value in `0..SCALE` scanned against the
//! thresholds in table order, the first threshold at or above the draw
//! winning. When two thresholds are equal the earlier entry wins, so ties
//! break by declaration order. A draw above the last threshold, or a drawn
//! category with no backing record, is retried; after `RETRY_LIMIT` misses the
//! draw reports failure rather than looping forever.

use vstd::prelude::*;

use crate::SCALE;
use crate::rng::RandomSource;
use crate::words::{Lexicon, WordType};

verus! {

/// How many times a draw is retried before it reports a miss.
pub const RETRY_LIMIT: u64 = 10000;

/// The sum of the first `n` weights of a category-rate table.
pub open spec fn rate_prefix_sum(rates: Seq<(WordType, u32)>, n: int) -> int
    decreases n,
{
    if n <= 0 {
        0
    } else {
        rate_prefix_sum(rates, n - 1) + rates[n - 1].1
    }
}

/// Prefix sums of non-negative weights are non-decreasing.
pub proof fn lemma_rate_prefix_sum_monotone(rates: Seq<(WordType, u32)>, i: int, j: int)
    requires
        0 <= i <= j,
        j <= rates.len(),
    ensures
        rate_prefix_sum(rates, i) <= rate_prefix_sum(rates, j),
    decreases j - i,
{
    if i < j {
        lemma_rate_prefix_sum_monotone(rates, i, j - 1);
    }
}

/// Entry `i` is the first whose threshold is at or above the draw `u`.
pub open spec fn is_first_match(thresholds: Seq<(u64, WordType)>, u: u64, i: int) -> bool {
    &&& 0 <= i < thresholds.len()
    &&& u <= thresholds[i].0
    &&& forall|j: int| 0 <= j < i ==> u > #[trigger] thresholds[j].0
}

/// The draw `u` lies above every threshold of the table.
pub open spec fn no_match(thresholds: Seq<(u64, WordType)>, u: u64) -> bool {
    forall|j: int| 0 <= j < thresholds.len() ==> u > #[trigger] thresholds[j].0
}

/// The table catches every possible draw: it is non-empty and its last
/// threshold is at or above the largest draw, `SCALE - 1`.
pub open spec fn covers_all_draws(thresholds: Seq<(u64, WordType)>) -> bool {
    thresholds.len() > 0 && thresholds[thresholds.len() - 1].0 >= SCALE - 1
}

/// Every category the table lists has at least one backing record.
pub open spec fn all_listed_backed(thresholds: Seq<(u64, WordType)>, lexicon: &Lexicon) -> bool {
    forall|i: int|
        0 <= i < thresholds.len() ==> lexicon.spec_count_of(#[trigger] thresholds[i].1) > 0
}

/// Turns a category-rate table into its cumulative threshold table: the same
/// categories in the same order, each weight replaced by the running sum of
/// the weights up to and including it. The thresholds are non-decreasing and
/// the last one equals the total of the input weights.
pub fn build_thresholds(rates: &Vec<(WordType, u32)>) -> (thresholds: Vec<(u64, WordType)>)
    requires
        rate_prefix_sum(rates@, rates@.len() as int) <= u64::MAX,
    ensures
        thresholds@.len() == rates@.len(),
        forall|i: int| 0 <= i < rates@.len() ==> (#[trigger] thresholds@[i]).1 == rates@[i].0,
        forall|i: int|
            0 <= i < rates@.len() ==> (#[trigger] thresholds@[i]).0 == rate_prefix_sum(
                rates@,
                i + 1,
            ),
        forall|i: int, j: int|
            0 <= i <= j < rates@.len() ==> (#[trigger] thresholds@[i]).0
                <= (#[trigger] thresholds@[j]).0,
        rates@.len() > 0 ==> thresholds@[rates@.len() - 1].0 == rate_prefix_sum(
            rates@,
            rates@.len() as int,
        ),
{
    let mut thresholds: Vec<(u64, WordType)> = Vec::new();
    let mut acc: u64 = 0;
    let mut i: usize = 0;
    while i < rates.len()
        invariant
            0 <= i <= rates@.len(),
            rate_prefix_sum(rates@, rates@.len() as int) <= u64::MAX,
            acc == rate_prefix_sum(rates@, i as int),
            thresholds@.len() == i,
            forall|k: int| 0 <= k < i ==> (#[trigger] thresholds@[k]).1 == rates@[k].0,
            forall|k: int|
                0 <= k < i ==> (#[trigger] thresholds@[k]).0 == rate_prefix_sum(rates@, k + 1),
        decreases rates@.len() - i,
    {
        proof {
            lemma_rate_prefix_sum_monotone(rates@, i + 1, rates@.len() as int);
        }
        acc = acc + rates[i].1 as u64;
        thresholds.push((acc, rates[i].0));
        i = i + 1;
    }
    proof {
        assert forall|a: int, b: int| 0 <= a <= b < rates@.len() implies thresholds@[a].0
            <= thresholds@[b].0 by {
            lemma_rate_prefix_sum_monotone(rates@, a + 1, b + 1);
        }
    }
    thresholds
}

/// Scans the thresholds in table order and returns the index of the first
/// entry whose threshold is at or above the draw `u`; `None` when the draw
/// lies above every threshold. The first match wins, so between numerically
/// equal thresholds the earlier-declared category is chosen.
pub fn select_by_threshold(thresholds: &Vec<(u64, WordType)>, u: u64) -> (r: Option<usize>)
    ensures
        match r {
            Some(i) => is_first_match(thresholds@, u, i as int),
            None => no_match(thresholds@, u),
        },
{
    let mut i: usize = 0;
    while i < thresholds.len()
        invariant
            0 <= i <= thresholds@.len(),
            forall|j: int| 0 <= j < i ==> u > #[trigger] thresholds@[j].0,
        decreases thresholds@.len() - i,
    {
        if u <= thresholds[i].0 {
            return Some(i);
        }
        i = i + 1;
    }
    None
}

/// One draw of the sampler: a uniform value in `0..SCALE` matched against the
/// thresholds, retried while the draw lands above the last threshold or the
/// matched category has no backing record in the collection, and given up
/// after `RETRY_LIMIT` attempts. When the table catches every draw and every
/// listed category is backed, the draw always succeeds.
pub fn draw(
    thresholds: &Vec<(u64, WordType)>,
    lexicon: &Lexicon,
    rng: &mut RandomSource,
) -> (r: Option<WordType>)
    ensures
        match r {
            Some(word_type) => exists|i: int, u: u64|
                u < SCALE && is_first_match(thresholds@, u, i) && thresholds@[i].1 == word_type
                    && lexicon.spec_count_of(word_type) > 0,
            None => true,
        },
        covers_all_draws(thresholds@) && all_listed_backed(thresholds@, lexicon) ==> r is Some,
{
    let ghost guaranteed = covers_all_draws(thresholds@) && all_listed_backed(
        thresholds@,
        lexicon,
    );
    let mut attempt: u64 = 0;
    while attempt < RETRY_LIMIT
        invariant
            guaranteed == (covers_all_draws(thresholds@) && all_listed_backed(
                thresholds@,
                lexicon,
            )),
            guaranteed ==> attempt == 0,
        decreases RETRY_LIMIT - attempt,
    {
        let u: u64 = rng.next_below(SCALE);
        match select_by_threshold(thresholds, u) {
            Some(i) => {
                let word_type = thresholds[i].1;
                if lexicon.has_category(word_type) {
                    return Some(word_type);
                }
                proof {
                    // A matched but unbacked category contradicts every listed
                    // category being backed.
                    assert(!guaranteed);
                }
            },
            None => {
                proof {
                    // A draw above every threshold contradicts the table
                    // catching every draw: the last threshold is at or above
                    // SCALE - 1, and u is below SCALE.
                    if covers_all_draws(thresholds@) {
                        assert(u > thresholds@[thresholds@.len() - 1].0);
                        assert(false);
                    }
                }
            },
        }
        attempt = attempt + 1;
    }
    None
}

} // verus!
