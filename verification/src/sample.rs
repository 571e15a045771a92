//! Rarity-weighted sampling.  The one random draw of the whole library is the
//! trusted call into rand's `WeightedIndex`; everything that interprets the
//! drawn index is verified and stated for every value the draw can take.

use vstd::prelude::*;
use vstd::string::*;

use rand::distributions::{Distribution, WeightedIndex};

use crate::catalog::{spec_variants, str_views, variants_of};
use crate::kinds::{Gender, Rarity, TraitCategory};

verus! {

/// Failure of a batch-generation step.
#[derive(Clone, Copy, Debug, PartialEq, Eq, Structural)]
pub enum GenError {
    /// A mandatory category kept drawing tiers with no candidates until the
    /// retry bound was reached; with the catalog invariant intact this means
    /// the random source is broken, and it is surfaced instead of looping.
    RetriesExhausted,
}

/// How often a mandatory category is redrawn before giving up.
pub const RETRY_BOUND: u64 = 1000;

/// The sum of a list of sampling weights.
pub open spec fn weight_total(s: Seq<u64>) -> int
    decreases s.len(),
{
    if s.len() == 0 {
        0
    } else {
        weight_total(s.drop_last()) + s.last()
    }
}

/// A list of unit weights sums to its length.
proof fn lemma_ones_total(s: Seq<u64>)
    requires
        forall|k: int| 0 <= k < s.len() ==> s[k] == 1,
    ensures
        weight_total(s) == s.len(),
    decreases s.len(),
{
    if s.len() > 0 {
        assert forall|k: int| 0 <= k < s.drop_last().len() implies s.drop_last()[k] == 1 by {
            assert(s.drop_last()[k] == s[k]);
        }
        lemma_ones_total(s.drop_last());
    }
}

/// Relies on rand's `WeightedIndex`: `new` succeeds on a non-empty list of
/// positive weights whose total does not overflow, and `sample` returns an
/// index below the list's length.
#[verifier::external_body]
fn weighted_index_sample(weights: &Vec<u64>) -> (i: usize)
    requires
        weights@.len() >= 1,
        forall|k: int| 0 <= k < weights@.len() ==> weights@[k] >= 1,
        weight_total(weights@) <= u64::MAX,
    ensures
        i < weights@.len(),
{
    let dist = WeightedIndex::new(weights.iter()).expect("invalid weights");
    let mut rng = rand::thread_rng();
    dist.sample(&mut rng)
}

/// An equal-probability choice among a non-empty list of candidates.
pub fn pick_uniform(choices: &Vec<&'static str>) -> (s: &'static str)
    requires
        choices@.len() >= 1,
    ensures
        exists|i: int| 0 <= i < choices@.len() && s == #[trigger] choices@[i],
{
    let n = choices.len();
    let mut weights: Vec<u64> = Vec::new();
    let mut k: usize = 0;
    while k < n
        invariant
            k <= n,
            weights@.len() == k,
            forall|j: int| 0 <= j < k ==> weights@[j] == 1,
        decreases n - k,
    {
        weights.push(1);
        k = k + 1;
    }
    proof {
        lemma_ones_total(weights@);
    }
    let i = weighted_index_sample(&weights);
    choices[i]
}

/// The tier at a position of the weight list handed to the sampler.
pub fn rarity_of_index(i: usize) -> (r: Rarity)
    requires
        i < 6,
    ensures
        r == Rarity::spec_all()[i as int],
{
    match i {
        0 => Rarity::Common,
        1 => Rarity::Uncommon,
        2 => Rarity::Rare,
        3 => Rarity::Epic,
        4 => Rarity::Legendary,
        _ => Rarity::Mythical,
    }
}

/// Draws one rarity tier from the fixed distribution: the tiers carry
/// weights 50, 30, 10, 6, 3 and 1 out of a total of 100.  Every tier can
/// come back; nothing more is promised of a random draw.
pub fn sample_rarity() -> (r: Rarity) {
    let tiers = Rarity::all();
    let mut weights: Vec<u64> = Vec::new();
    let mut k: usize = 0;
    while k < 6
        invariant
            k <= 6,
            tiers@ == Rarity::spec_all(),
            weights@.len() == k,
            forall|j: int| 0 <= j < k ==> weights@[j] == Rarity::spec_all()[j].spec_weight(),
        decreases 6 - k,
    {
        weights.push(tiers[k].weight());
        k = k + 1;
    }
    proof {
        reveal_with_fuel(weight_total, 8);
        assert(weights@.drop_last().drop_last().drop_last().drop_last().drop_last().drop_last()
            =~= Seq::<u64>::empty());
        assert(weight_total(weights@) == 100);
    }
    let i = weighted_index_sample(&weights);
    rarity_of_index(i)
}

/// The identifier is one of the catalog's candidates for the gender and
/// category, under some rarity tier.
pub open spec fn spec_from_catalog(g: Gender, c: TraitCategory, t: Seq<char>) -> bool {
    exists|r: Rarity, i: int|
        0 <= i < spec_variants(g, c, r).len() && t == #[trigger] spec_variants(g, c, r)[i]
}

/// One independent draw for a category: a rarity tier is sampled, and if the
/// catalog cell for it is empty the category yields no layer.
pub fn sample_optional(g: Gender, c: TraitCategory) -> (res: Option<String>)
    ensures
        res matches Some(v) ==> spec_from_catalog(g, c, v@),
        res is None ==> exists|r: Rarity| (#[trigger] spec_variants(g, c, r)).len() == 0,
{
    let r = sample_rarity();
    let choices = variants_of(g, c, r);
    if choices.len() == 0 {
        None
    } else {
        let s = pick_uniform(&choices);
        proof {
            let i = choose|i: int| 0 <= i < choices@.len() && s == choices@[i];
            assert(str_views(choices@)[i] == choices@[i]@);
        }
        Some(String::from_str(s))
    }
}

/// Resolution for a mandatory category: rarity redraws repeat, each an
/// independent draw of the same distribution, until a tier with candidates
/// comes up; the retry bound turns a broken draw into an error instead of a
/// hang.
pub fn sample_mandatory(g: Gender, c: TraitCategory) -> (res: Result<String, GenError>)
    ensures
        res matches Ok(v) ==> spec_from_catalog(g, c, v@),
        (forall|r: Rarity| (#[trigger] spec_variants(g, c, r)).len() > 0) ==> res is Ok,
{
    let mut attempts: u64 = 0;
    while attempts < RETRY_BOUND
        invariant
            attempts <= RETRY_BOUND,
            attempts > 0 ==> exists|r: Rarity| (#[trigger] spec_variants(g, c, r)).len() == 0,
        decreases RETRY_BOUND - attempts,
    {
        if let Some(v) = sample_optional(g, c) {
            return Ok(v);
        }
        attempts = attempts + 1;
    }
    Err(GenError::RetriesExhausted)
}

} // verus!
