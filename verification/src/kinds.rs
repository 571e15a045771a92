//! The basic enumerations of the generator: gender, rarity tier and trait
//! category, together with the fixed category order and the integer rarity
//! weights.

use vstd::prelude::*;
use vstd::string::*;

use crate::strutil::{spec_has_substring, str_contains};

verus! {

/// How many entities a default batch generates per gender.
pub const DEFAULT_BATCH_TOTAL: usize = 5000;

/// The two asset sets a batch can be generated for.
#[derive(Clone, Copy, Debug, PartialEq, Eq, Structural)]
pub enum Gender {
    Boy,
    Girl,
}

/// The six rarity tiers of the sampling distribution.
#[derive(Clone, Copy, Debug, PartialEq, Eq, Structural)]
pub enum Rarity {
    Common,
    Uncommon,
    Rare,
    Epic,
    Legendary,
    Mythical,
}

/// The trait categories, in the fixed bottom-to-top compositing order.
#[derive(Clone, Copy, Debug, PartialEq, Eq, Structural)]
pub enum TraitCategory {
    Background,
    Hand,
    HairLong,
    Body,
    Clothes,
    Face,
    FaceAcc,
    Hair,
    HeadPhone,
}

impl Gender {
    /// The lower-case name used in the per-gender log file name.
    pub open spec fn spec_name(self) -> Seq<char> {
        match self {
            Gender::Boy => "boy"@,
            Gender::Girl => "girl"@,
        }
    }

    pub fn name(self) -> (r: &'static str)
        ensures
            r@ == self.spec_name(),
    {
        match self {
            Gender::Boy => "boy",
            Gender::Girl => "girl",
        }
    }
}

impl Rarity {
    /// The sampling weight of the tier, in hundredths: the tiers carry
    /// probabilities 0.50, 0.30, 0.10, 0.06, 0.03 and 0.01.
    pub open spec fn spec_weight(self) -> u64 {
        match self {
            Rarity::Common => 50,
            Rarity::Uncommon => 30,
            Rarity::Rare => 10,
            Rarity::Epic => 6,
            Rarity::Legendary => 3,
            Rarity::Mythical => 1,
        }
    }

    pub fn weight(self) -> (w: u64)
        ensures
            w == self.spec_weight(),
    {
        match self {
            Rarity::Common => 50,
            Rarity::Uncommon => 30,
            Rarity::Rare => 10,
            Rarity::Epic => 6,
            Rarity::Legendary => 3,
            Rarity::Mythical => 1,
        }
    }

    /// The tiers in the order their weights are listed for the sampler.
    pub open spec fn spec_all() -> Seq<Rarity> {
        seq![
            Rarity::Common,
            Rarity::Uncommon,
            Rarity::Rare,
            Rarity::Epic,
            Rarity::Legendary,
            Rarity::Mythical,
        ]
    }

    pub fn all() -> (v: Vec<Rarity>)
        ensures
            v@ == Rarity::spec_all(),
    {
        let mut v: Vec<Rarity> = Vec::new();
        v.push(Rarity::Common);
        v.push(Rarity::Uncommon);
        v.push(Rarity::Rare);
        v.push(Rarity::Epic);
        v.push(Rarity::Legendary);
        v.push(Rarity::Mythical);
        proof {
            assert(v@ =~= Rarity::spec_all());
        }
        v
    }
}

impl TraitCategory {
    /// Position of the category in the fixed order.
    pub open spec fn spec_index(self) -> int {
        match self {
            TraitCategory::Background => 0,
            TraitCategory::Hand => 1,
            TraitCategory::HairLong => 2,
            TraitCategory::Body => 3,
            TraitCategory::Clothes => 4,
            TraitCategory::Face => 5,
            TraitCategory::FaceAcc => 6,
            TraitCategory::Hair => 7,
            TraitCategory::HeadPhone => 8,
        }
    }

    /// A category that must contribute exactly one variant to every manifest.
    pub open spec fn spec_mandatory(self) -> bool {
        match self {
            TraitCategory::Hand => true,
            TraitCategory::HairLong => true,
            TraitCategory::Clothes => true,
            TraitCategory::Face => true,
            _ => false,
        }
    }

    pub fn is_mandatory(self) -> (r: bool)
        ensures
            r == self.spec_mandatory(),
    {
        match self {
            TraitCategory::Hand => true,
            TraitCategory::HairLong => true,
            TraitCategory::Clothes => true,
            TraitCategory::Face => true,
            _ => false,
        }
    }
}

/// The fixed category order: it fixes both the manifest layer order and the
/// order in which the dependency rules may consult earlier categories.
pub open spec fn spec_category_order() -> Seq<TraitCategory> {
    seq![
        TraitCategory::Background,
        TraitCategory::Hand,
        TraitCategory::HairLong,
        TraitCategory::Body,
        TraitCategory::Clothes,
        TraitCategory::Face,
        TraitCategory::FaceAcc,
        TraitCategory::Hair,
        TraitCategory::HeadPhone,
    ]
}

pub fn category_order() -> (v: Vec<TraitCategory>)
    ensures
        v@ == spec_category_order(),
        v@.len() == 9,
{
    let mut v: Vec<TraitCategory> = Vec::new();
    v.push(TraitCategory::Background);
    v.push(TraitCategory::Hand);
    v.push(TraitCategory::HairLong);
    v.push(TraitCategory::Body);
    v.push(TraitCategory::Clothes);
    v.push(TraitCategory::Face);
    v.push(TraitCategory::FaceAcc);
    v.push(TraitCategory::Hair);
    v.push(TraitCategory::HeadPhone);
    proof {
        assert(v@ =~= spec_category_order());
    }
    v
}

/// The gender a batch works on, read off the input directory's name: a
/// directory whose name contains the Boy asset marker selects Boy, any
/// other selects Girl.
pub fn gender_of_dir(dir: &str) -> (g: Gender)
    ensures
        (g == Gender::Boy) <==> spec_has_substring(dir@, "NFT_B"@),
{
    if str_contains(dir, "NFT_B") {
        Gender::Boy
    } else {
        Gender::Girl
    }
}

/// The per-gender manifest log file name: `mapping_<gender>.txt`.
pub fn mapping_file_name(g: Gender) -> (r: String)
    ensures
        r@ == "mapping_"@ + g.spec_name() + ".txt"@,
{
    let mut r = String::from_str("mapping_");
    r.append(g.name());
    r.append(".txt");
    r
}

} // verus!
