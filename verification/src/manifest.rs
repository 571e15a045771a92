//! Manifest generation: one pass over the fixed category order, with
//! mandatory-category retry, the derived Hair entry and the dependency
//! gates, and the flattening of the per-category slots into the ordered
//! entry list that is logged and composited.

use vstd::prelude::*;
use vstd::string::*;

use crate::catalog::spec_variants;
use crate::kinds::{Gender, TraitCategory};
use crate::rules::{
    allows_face_acc, allows_headphone, derive_hair, spec_allows_face_acc, spec_allows_headphone,
    spec_derive_hair,
};
use crate::rules::lemma_derive_hair_catalog;
use crate::sample::{sample_mandatory, sample_optional, spec_from_catalog, GenError};
use crate::strutil::views_of;

verus! {

/// The views of the per-category slots, in order.
pub open spec fn slot_views(slots: Seq<Option<String>>) -> Seq<Option<Seq<char>>> {
    slots.map_values(
        |o: Option<String>|
            match o {
                Option::Some(s) => Option::Some(s@),
                Option::None => Option::None,
            },
    )
}

/// One entity's manifest in structured form: one slot per trait category,
/// holding the chosen variant identifier or nothing where the category is
/// absent.
pub struct Manifest {
    pub slots: Vec<Option<String>>,
}

impl Manifest {
    /// The slot of one category.
    pub open spec fn slot(self, c: TraitCategory) -> Option<Seq<char>> {
        slot_views(self.slots@)[c.spec_index()]
    }

    /// Well-formedness of a generated manifest for a gender: one slot per
    /// category; every mandatory category resolved; every sampled entry a
    /// catalog candidate of its category; Hair derived from HairLong, not
    /// sampled; and the FaceAcc and HeadPhone gates honoured.
    pub open spec fn wf(self, g: Gender) -> bool {
        &&& self.slots@.len() == 9
        &&& forall|c: TraitCategory| c.spec_mandatory() ==> (#[trigger] self.slot(c)) is Some
        &&& (self.slot(TraitCategory::Background) matches Some(v) ==> spec_from_catalog(
            g,
            TraitCategory::Background,
            v,
        ))
        &&& (self.slot(TraitCategory::Hand) matches Some(v) ==> spec_from_catalog(
            g,
            TraitCategory::Hand,
            v,
        ))
        &&& (self.slot(TraitCategory::HairLong) matches Some(v) ==> spec_from_catalog(
            g,
            TraitCategory::HairLong,
            v,
        ))
        &&& (self.slot(TraitCategory::Body) matches Some(v) ==> spec_from_catalog(
            g,
            TraitCategory::Body,
            v,
        ))
        &&& (self.slot(TraitCategory::Clothes) matches Some(v) ==> spec_from_catalog(
            g,
            TraitCategory::Clothes,
            v,
        ))
        &&& (self.slot(TraitCategory::Face) matches Some(v) ==> spec_from_catalog(
            g,
            TraitCategory::Face,
            v,
        ))
        &&& (self.slot(TraitCategory::FaceAcc) matches Some(v) ==> spec_from_catalog(
            g,
            TraitCategory::FaceAcc,
            v,
        ))
        &&& (self.slot(TraitCategory::HeadPhone) matches Some(v) ==> spec_from_catalog(
            g,
            TraitCategory::HeadPhone,
            v,
        ))
        &&& self.slot(TraitCategory::Hair) == Option::Some(
            spec_derive_hair(self.slot(TraitCategory::HairLong)->Some_0),
        )
        &&& !spec_allows_face_acc(g, self.slot(TraitCategory::HairLong)->Some_0) ==> self.slot(
            TraitCategory::FaceAcc,
        ) is None
        &&& !spec_allows_headphone(g, self.slot(TraitCategory::HairLong)->Some_0) ==> self.slot(
            TraitCategory::HeadPhone,
        ) is None
    }
}

/// Generates one manifest: the categories are visited in the fixed order;
/// mandatory categories retry until a tier with candidates comes up, the
/// optional ones take one draw and may stay absent, Hair is derived from the
/// sampled HairLong, and the FaceAcc and HeadPhone draws are skipped
/// entirely where the HairLong variant disallows them.  With this catalog
/// every mandatory tier has candidates, so generation always succeeds.
pub fn generate_one(g: Gender) -> (res: Result<Manifest, GenError>)
    ensures
        res is Ok,
        res matches Ok(m) ==> m.wf(g),
{
    proof {
        crate::catalog::lemma_mandatory_tier_nonempty(g, TraitCategory::Hand);
        crate::catalog::lemma_mandatory_tier_nonempty(g, TraitCategory::HairLong);
        crate::catalog::lemma_mandatory_tier_nonempty(g, TraitCategory::Clothes);
        crate::catalog::lemma_mandatory_tier_nonempty(g, TraitCategory::Face);
    }
    let mut slots: Vec<Option<String>> = Vec::new();
    slots.push(sample_optional(g, TraitCategory::Background));
    let hand = match sample_mandatory(g, TraitCategory::Hand) {
        Ok(v) => v,
        Err(e) => {
            return Err(e);
        },
    };
    slots.push(Some(hand));
    let hair_long = match sample_mandatory(g, TraitCategory::HairLong) {
        Ok(v) => v,
        Err(e) => {
            return Err(e);
        },
    };
    slots.push(Some(hair_long.clone()));
    slots.push(sample_optional(g, TraitCategory::Body));
    let clothes = match sample_mandatory(g, TraitCategory::Clothes) {
        Ok(v) => v,
        Err(e) => {
            return Err(e);
        },
    };
    slots.push(Some(clothes));
    let face = match sample_mandatory(g, TraitCategory::Face) {
        Ok(v) => v,
        Err(e) => {
            return Err(e);
        },
    };
    slots.push(Some(face));
    if allows_face_acc(g, hair_long.as_str()) {
        slots.push(sample_optional(g, TraitCategory::FaceAcc));
    } else {
        slots.push(None);
    }
    proof {
        let (r, i): (crate::kinds::Rarity, int) = choose|r: crate::kinds::Rarity, i: int|
            0 <= i < spec_variants(g, TraitCategory::HairLong, r).len() && hair_long@
                == spec_variants(g, TraitCategory::HairLong, r)[i];
        lemma_derive_hair_catalog(g, r, i);
    }
    let hair = derive_hair(hair_long.as_str());
    slots.push(Some(hair));
    if allows_headphone(g, hair_long.as_str()) {
        slots.push(sample_optional(g, TraitCategory::HeadPhone));
    } else {
        slots.push(None);
    }
    let m = Manifest { slots };
    proof {
        assert forall|c: TraitCategory| c.spec_mandatory() implies (#[trigger] m.slot(c))
            is Some by {
            assert(0 <= c.spec_index() < 9);
        }
    }
    Ok(m)
}

/// The flattening of the slots: present categories contribute their entry,
/// in category order; absent categories contribute nothing.
pub open spec fn spec_entries(slots: Seq<Option<Seq<char>>>) -> Seq<Seq<char>>
    decreases slots.len(),
{
    if slots.len() == 0 {
        Seq::<Seq<char>>::empty()
    } else {
        let rest = spec_entries(slots.drop_first());
        match slots[0] {
            Option::Some(v) => seq![v] + rest,
            Option::None => rest,
        }
    }
}

/// Flattening distributes over concatenation of slot sequences.
pub proof fn lemma_entries_concat(a: Seq<Option<Seq<char>>>, b: Seq<Option<Seq<char>>>)
    ensures
        spec_entries(a + b) =~= spec_entries(a) + spec_entries(b),
    decreases a.len(),
{
    if a.len() == 0 {
        assert(a + b =~= b);
    } else {
        lemma_entries_concat(a.drop_first(), b);
        assert((a + b).drop_first() =~= a.drop_first() + b);
        assert((a + b)[0] == a[0]);
    }
}

impl Manifest {
    /// The ordered entry list of the manifest, as [`spec_entries`]
    /// describes: one identifier per present category, in category order.
    pub fn entries(&self) -> (v: Vec<String>)
        ensures
            views_of(v@) == spec_entries(slot_views(self.slots@)),
    {
        let n = self.slots.len();
        let mut v: Vec<String> = Vec::new();
        let mut i: usize = 0;
        let ghost sv = slot_views(self.slots@);
        proof {
            assert(sv.skip(0) =~= sv);
            assert(views_of(v@) + spec_entries(sv.skip(0)) =~= spec_entries(sv));
        }
        while i < n
            invariant
                n == self.slots@.len(),
                i <= n,
                sv == slot_views(self.slots@),
                spec_entries(sv) =~= views_of(v@) + spec_entries(sv.skip(i as int)),
            decreases n - i,
        {
            let ghost old_v = v@;
            proof {
                assert(sv.skip(i as int).drop_first() =~= sv.skip(i + 1));
                assert(sv.skip(i as int)[0] == sv[i as int]);
            }
            match &self.slots[i] {
                Some(s) => {
                    v.push(s.clone());
                    proof {
                        assert(views_of(v@) =~= views_of(old_v).push(s@));
                        assert(sv[i as int] == Option::Some(s@));
                    }
                },
                None => {
                    proof {
                        assert(sv[i as int] is None);
                    }
                },
            }
            i = i + 1;
        }
        proof {
            assert(spec_entries(sv.skip(n as int)) =~= Seq::<Seq<char>>::empty());
            assert(views_of(v@) =~= spec_entries(sv));
        }
        v
    }
}

/// The entry position of a category: the number of present categories
/// before it.
pub open spec fn spec_pos(slots: Seq<Option<Seq<char>>>, c: TraitCategory) -> int {
    spec_entries(slots.take(c.spec_index())).len() as int
}

/// Category order is preserved in the flattened entry list, and no category
/// contributes more than one entry: each present category stands at the
/// position counting the present categories before it, and two present
/// categories stand at distinct positions in category order.
pub proof fn lemma_entries_order(
    slots: Seq<Option<Seq<char>>>,
    c1: TraitCategory,
    c2: TraitCategory,
)
    requires
        slots.len() == 9,
        slots[c1.spec_index()] is Some,
        slots[c2.spec_index()] is Some,
        c1.spec_index() < c2.spec_index(),
    ensures
        0 <= spec_pos(slots, c1) < spec_pos(slots, c2) < spec_entries(slots).len(),
        spec_entries(slots)[spec_pos(slots, c1)] == slots[c1.spec_index()]->Some_0,
        spec_entries(slots)[spec_pos(slots, c2)] == slots[c2.spec_index()]->Some_0,
{
    lemma_entry_at(slots, c1.spec_index());
    lemma_entry_at(slots, c2.spec_index());
    let i1 = c1.spec_index();
    let i2 = c2.spec_index();
    let a = slots.take(i1);
    let mid = slots.subrange(i1, i2);
    assert(slots.take(i2) =~= a + mid);
    lemma_entries_concat(a, mid);
    assert(mid[0] == slots[i1]);
    assert(spec_entries(mid).len() >= 1) by {
        assert(seq![mid[0]->Some_0] + spec_entries(mid.drop_first())
            == spec_entries(mid));
    }
}

/// A present slot's value stands in the entry list at the position counting
/// the present slots before it.
pub proof fn lemma_entry_at(slots: Seq<Option<Seq<char>>>, i: int)
    requires
        0 <= i < slots.len(),
        slots[i] is Some,
    ensures
        spec_entries(slots.take(i)).len() < spec_entries(slots).len(),
        spec_entries(slots)[spec_entries(slots.take(i)).len() as int] == slots[i]->Some_0,
{
    let a = slots.take(i);
    let b = slots.skip(i);
    assert(slots =~= a + b);
    lemma_entries_concat(a, b);
    assert(b[0] == slots[i]);
    assert(spec_entries(b) == seq![b[0]->Some_0] + spec_entries(b.drop_first()));
    assert(spec_entries(slots)[spec_entries(a).len() as int] == spec_entries(b)[0]);
}

/// Category order is preserved in every well-formed manifest: two present
/// categories stand in its entry list at distinct positions in category
/// order, each holding its own slot's identifier.
pub proof fn lemma_manifest_entries_ordered(
    m: Manifest,
    g: Gender,
    c1: TraitCategory,
    c2: TraitCategory,
)
    requires
        m.wf(g),
        c1.spec_index() < c2.spec_index(),
        m.slot(c1) is Some,
        m.slot(c2) is Some,
    ensures
        ({
            let entries = spec_entries(slot_views(m.slots@));
            &&& 0 <= spec_pos(slot_views(m.slots@), c1) < spec_pos(slot_views(m.slots@), c2)
                < entries.len()
            &&& entries[spec_pos(slot_views(m.slots@), c1)] == m.slot(c1)->Some_0
            &&& entries[spec_pos(slot_views(m.slots@), c2)] == m.slot(c2)->Some_0
        }),
{
    lemma_entries_order(slot_views(m.slots@), c1, c2);
}

/// The dependency gates hold of every well-formed manifest: where the
/// sampled HairLong variant stands in a disallowed set, the gated layer's
/// slot is forced absent, so the layer never appears beside that variant.
pub proof fn lemma_manifest_gates(m: Manifest, g: Gender)
    requires
        m.wf(g),
    ensures
        !spec_allows_headphone(g, m.slot(TraitCategory::HairLong)->Some_0) ==> m.slot(
            TraitCategory::HeadPhone,
        ) is None,
        !spec_allows_face_acc(g, m.slot(TraitCategory::HairLong)->Some_0) ==> m.slot(
            TraitCategory::FaceAcc,
        ) is None,
{
}

/// Generates a whole batch: `count` manifests, independent draws, in index
/// order.  A failed generation would abort the batch; with this catalog
/// none fails, so the batch always succeeds in full.
pub fn generate_batch(g: Gender, count: usize) -> (res: Result<Vec<Manifest>, GenError>)
    ensures
        res is Ok,
        res matches Ok(ms) ==> {
            &&& ms@.len() == count
            &&& forall|k: int| 0 <= k < ms@.len() ==> (#[trigger] ms@[k]).wf(g)
        },
{
    let mut ms: Vec<Manifest> = Vec::new();
    let mut i: usize = 0;
    while i < count
        invariant
            i <= count,
            ms@.len() == i,
            forall|k: int| 0 <= k < ms@.len() ==> (#[trigger] ms@[k]).wf(g),
        decreases count - i,
    {
        match generate_one(g) {
            Ok(m) => ms.push(m),
            Err(e) => {
                return Err(e);
            },
        }
        i = i + 1;
    }
    Ok(ms)
}

} // verus!
