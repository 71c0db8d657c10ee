//! The random stream a selection draws from: a PCG32 generator of `rand_pcg`
//! and the weighted draw of `rand`.
//!
//! Neither is verified here. What this module states of them is what the
//! selector is proved from.

use rand::distributions::{Distribution, WeightedIndex};
use rand::SeedableRng;
use rand_pcg::Lcg64Xsh32;
use vstd::prelude::*;

verus! {

#[verifier::external_type_specification]
#[verifier::external_body]
pub struct ExLcg64Xsh32(Lcg64Xsh32);

/// The two words a generator holds: its state and its stream increment.
pub uninterp spec fn generator_words(generator: Lcg64Xsh32) -> (u64, u64);

/// The words of the generator that `seed_from_u64` builds from `seed`.
pub uninterp spec fn seeded_words(seed: u64) -> (u64, u64);

/// What a weighted draw over `weights` gives on a generator holding `words`:
/// the index drawn, and the words the generator holds afterwards.
pub uninterp spec fn weighted_draw(words: (u64, u64), weights: Seq<u64>) -> (int, (u64, u64));

/// Whether some weight is positive.
pub open spec fn has_positive(weights: Seq<u64>) -> bool {
    exists|i: int| 0 <= i < weights.len() && weights[i] > 0
}

/// `SeedableRng::seed_from_u64` for `Lcg64Xsh32`.
///
/// Claimed of it: what the generator holds depends on the seed alone.
#[verifier::external_body]
pub(crate) fn seeded_generator(seed: u64) -> (generator: Lcg64Xsh32)
    ensures
        generator_words(generator) == seeded_words(seed),
{
    Lcg64Xsh32::seed_from_u64(seed)
}

/// `WeightedIndex::new` over the weights, widened to 128 bits so that their
/// sum cannot overflow, followed by `Distribution::sample` on `generator`.
///
/// Claimed of them: `new` refuses the weights exactly when none is positive,
/// and then the generator is left as it was. Else `sample` gives the position
/// of a weight that is positive: it takes a number below the sum of the
/// weights and looks for the first position at which the running sum exceeds
/// it. Which position it gives, and what the generator holds afterwards,
/// depends on what the generator held and on the weights, and on nothing
/// else.
#[verifier::external_body]
pub(crate) fn draw_index(generator: &mut Lcg64Xsh32, weights: &Vec<u64>) -> (drawn: Option<usize>)
    ensures
        drawn is Some <==> has_positive(weights@),
        drawn matches Some(i) ==> {
            &&& i < weights.len()
            &&& weights[i as int] > 0
            &&& i == weighted_draw(generator_words(*old(generator)), weights@).0
            &&& generator_words(*final(generator)) == weighted_draw(
                generator_words(*old(generator)),
                weights@,
            ).1
        },
        drawn is None ==> generator_words(*final(generator)) == generator_words(*old(generator)),
{
    WeightedIndex::new(weights.iter().copied().map(u128::from)).ok().map(|d| d.sample(generator))
}

} // verus!
