//! The weighted variant selector, at generation time: one index drawn in
//! proportion to the weights.

use vstd::prelude::*;
use rand::distributions::{Distribution, WeightedError, WeightedIndex};
use rand::rngs::StdRng;

verus! {

/// Why a list of weights has no distribution.
#[derive(Debug, Clone, Copy, PartialEq, Eq, Structural)]
pub enum WeightError {
    /// There is no weight.
    NoItem,
    /// A weight is negative, or the weights add up to more than an `i64`
    /// holds.
    InvalidWeight,
    /// Every weight is zero.
    AllWeightsZero,
}

/// The sum of the positive weights of `weights`.
pub open spec fn positive_total(weights: Seq<i64>) -> int
    decreases weights.len(),
{
    if weights.len() == 0 {
        0
    } else {
        positive_total(weights.drop_last()) + if weights.last() > 0 {
            weights.last() as int
        } else {
            0
        }
    }
}

/// Why `weights` has no distribution; `None` where it has one: there is a
/// weight, none is negative, and they add up to more than zero and to no
/// more than an `i64` holds.
pub open spec fn weight_error(weights: Seq<i64>) -> Option<WeightError> {
    if weights.len() == 0 {
        Some(WeightError::NoItem)
    } else if (exists|i: int| 0 <= i < weights.len() && weights[i] < 0) || positive_total(weights)
        > i64::MAX {
        Some(WeightError::InvalidWeight)
    } else if positive_total(weights) == 0 {
        Some(WeightError::AllWeightsZero)
    } else {
        None
    }
}

/// A distribution over the indices of a list of weights.
#[verifier::external_body]
pub struct VariantDistribution {
    inner: WeightedIndex<i64>,
}

/// The weights that a distribution was made from.
pub uninterp spec fn distribution_weights(d: VariantDistribution) -> Seq<i64>;

/// `WeightedIndex::new` of the `rand` crate. It adds the weights up from the
/// left, so the sum of the positive ones has to fit. It then refuses an
/// empty list, a negative weight and a sum of zero, each with its own
/// error, and else returns the distribution over these weights. Its fourth
/// error, for too many weights, is one that it never returns; it is passed
/// on as an invalid weight.
#[verifier::external_body]
fn new_distribution(weights: &Vec<i64>) -> (r: Result<VariantDistribution, WeightError>)
    requires
        positive_total(weights@) <= i64::MAX,
    ensures
        match r {
            Ok(d) => weight_error(weights@) is None && distribution_weights(d) == weights@,
            Err(e) => weight_error(weights@) == Some(e),
        },
{
    match WeightedIndex::new(weights) {
        Ok(inner) => Ok(VariantDistribution { inner }),
        Err(WeightedError::NoItem) => Err(WeightError::NoItem),
        Err(WeightedError::InvalidWeight) => Err(WeightError::InvalidWeight),
        Err(WeightedError::AllWeightsZero) => Err(WeightError::AllWeightsZero),
        Err(WeightedError::TooMany) => Err(WeightError::InvalidWeight),
    }
}

/// `WeightedIndex::sample` of the `rand` crate: it draws a number below the
/// sum of the weights and returns the index at which the running sum first
/// exceeds it. That index is within the list, and its weight is positive.
/// Which index comes out depends on `rng`.
#[verifier::external_body]
fn sample_distribution(d: &VariantDistribution, rng: &mut StdRng) -> (i: usize)
    ensures
        i < distribution_weights(*d).len(),
        distribution_weights(*d)[i as int] > 0,
{
    d.inner.sample(rng)
}

/// The positive weights among the first `n` add up to no more than all of
/// them do.
proof fn lemma_positive_total_grows(weights: Seq<i64>, n: int)
    requires
        0 <= n <= weights.len(),
    ensures
        0 <= positive_total(weights.take(n)) <= positive_total(weights),
    decreases weights.len() - n,
{
    if n < weights.len() {
        assert(weights.take(n + 1).drop_last() =~= weights.take(n));
        lemma_positive_total_grows(weights, n + 1);
        lemma_positive_total_nonnegative(weights.take(n));
    } else {
        assert(weights.take(n) =~= weights);
        lemma_positive_total_nonnegative(weights);
    }
}

proof fn lemma_positive_total_nonnegative(weights: Seq<i64>)
    ensures
        0 <= positive_total(weights),
    decreases weights.len(),
{
    if weights.len() > 0 {
        lemma_positive_total_nonnegative(weights.drop_last());
    }
}

/// Whether the positive weights add up to no more than an `i64` holds.
fn total_fits(weights: &Vec<i64>) -> (r: bool)
    ensures
        r == (positive_total(weights@) <= i64::MAX),
{
    let mut total: i64 = 0;
    let mut i: usize = 0;
    assert(weights@.take(0) =~= Seq::<i64>::empty());
    while i < weights.len()
        invariant
            i <= weights.len(),
            total == positive_total(weights@.take(i as int)),
            0 <= total,
        decreases weights.len() - i,
    {
        assert(weights@.take(i + 1).drop_last() =~= weights@.take(i as int));
        let w = weights[i];
        if w > 0 {
            if w > i64::MAX - total {
                proof {
                    lemma_positive_total_grows(weights@, i + 1);
                }
                return false;
            }
            total = total + w;
        }
        i += 1;
    }
    assert(weights@.take(weights.len() as int) =~= weights@);
    true
}

/// Draws the index of one variant, in proportion to the weights.
///
/// It fails exactly where the weights have no distribution. An index that
/// comes out is within the list and its weight is positive: a variant of
/// weight zero is never picked. Which of the others comes out depends on
/// `rng`.
pub fn select_variant(weights: &Vec<i64>, rng: &mut StdRng) -> (r: Result<usize, WeightError>)
    ensures
        match weight_error(weights@) {
            Some(e) => r == Err::<usize, WeightError>(e),
            None => r matches Ok(i) && i < weights.len() && weights[i as int] > 0,
        },
{
    if !total_fits(weights) {
        if weights.len() == 0 {
            proof {
                assert(positive_total(weights@) == 0);
            }
        }
        return Err(WeightError::InvalidWeight);
    }
    match new_distribution(weights) {
        Ok(d) => Ok(sample_distribution(&d, rng)),
        Err(e) => Err(e),
    }
}

} // verus!
