//! Cross-category dependency rules: the Hair identifier derived from the
//! sampled HairLong identifier, and the gender-specific compatibility gates
//! that force FaceAcc or HeadPhone absent for some HairLong variants.

use vstd::prelude::*;

use crate::catalog::{spec_hair, spec_hair_long, spec_variants};
use crate::kinds::{Gender, Rarity, TraitCategory};
use crate::strutil::{
    join_sep, join_with, lemma_join_sep_push, lemma_join_split, lemma_split_append,
    lemma_split_len_pos, lemma_split_no_delim, split_on, split_on_char, str_eq, views_of,
};

verus! {

/// The derivation rule for the Hair identifier: split the HairLong
/// identifier on its underscore delimiter, remove the token second from the
/// end, and rejoin the rest with the same delimiter.
pub open spec fn spec_derive_hair(s: Seq<char>) -> Seq<char> {
    let parts = split_on(s, '_');
    join_sep(parts.remove(parts.len() - 2), seq!['_'])
}

/// Derives the Hair identifier from a HairLong identifier, as
/// [`spec_derive_hair`] describes.  An identifier of fewer than two tokens
/// has no token second from the end, and is kept out.
pub fn derive_hair(s: &str) -> (r: String)
    requires
        split_on(s@, '_').len() >= 2,
    ensures
        r@ == spec_derive_hair(s@),
{
    let mut parts = split_on_char(s, '_');
    let ghost old_parts = views_of(parts@);
    let idx = parts.len() - 2;
    parts.remove(idx);
    proof {
        assert(views_of(parts@) =~= old_parts.remove(old_parts.len() - 2));
        reveal_strlit("_");
        assert("_"@ =~= seq!['_']);
    }
    join_with(&parts, "_")
}

/// Removing the token second from the end of `h_t_n` drops `t`: deriving on
/// an identifier that ends with two delimiter-free tokens removes the first
/// of the two.
pub proof fn lemma_derive_drops_token(h: Seq<char>, t: Seq<char>, n: Seq<char>)
    requires
        !t.contains('_'),
        !n.contains('_'),
    ensures
        spec_derive_hair(h + seq!['_'] + t + seq!['_'] + n) == h + seq!['_'] + n,
        split_on(h + seq!['_'] + t + seq!['_'] + n, '_').len() >= 3,
{
    let s = h + seq!['_'] + t + seq!['_'] + n;
    let tail = t + seq!['_'] + n;
    assert(s =~= h + seq!['_'] + tail);
    lemma_split_append(h, tail, '_');
    lemma_split_append(t, n, '_');
    lemma_split_no_delim(t, '_');
    lemma_split_no_delim(n, '_');
    lemma_split_len_pos(h, '_');
    let hp = split_on(h, '_');
    let parts = split_on(s, '_');
    assert(parts =~= hp + seq![t, n]);
    let kept = parts.remove(parts.len() - 2);
    assert(kept =~= hp.push(n));
    lemma_join_sep_push(hp, n, seq!['_']);
    lemma_join_split(h, '_');
    assert(spec_derive_hair(s) == join_sep(kept, seq!['_']));
}

/// Whether a HeadPhone layer may accompany the HairLong variant: a fixed,
/// gender-specific list of HairLong variants excludes it.
pub open spec fn spec_allows_headphone(g: Gender, v: Seq<char>) -> bool {
    match g {
        Gender::Boy => !(v == "NFT_B_Hair_Long_2"@ || v == "NFT_B_Hair_Long_3"@ || v
            == "NFT_B_Hair_Long_4"@ || v == "NFT_B_Hair_Long_7"@ || v == "NFT_B_Hair_Long_8"@
            || v == "NFT_B_Hair_Long_9"@ || v == "NFT_B_Hair_Long_10"@ || v
            == "NFT_B_Hair_Long_1"@ || v == "NFT_B_Hair_Long_5"@ || v == "NFT_B_Hair_Long_6"@),
        Gender::Girl => !(v == "NFT_G_Hair_Long_4"@ || v == "NFT_G_Hair_Long_5"@ || v
            == "NFT_G_Hair_Long_6"@ || v == "NFT_G_Hair_Long_7"@ || v == "NFT_G_Hair_Long_8"@
            || v == "NFT_G_Hair_Long_9"@ || v == "NFT_G_Hair_Long_10"@ || v
            == "NFT_G_Hair_Long_13"@ || v == "NFT_G_Hair_Long_14"@ || v
            == "NFT_G_Hair_Long_15"@ || v == "NFT_G_Hair_Long_16"@ || v
            == "NFT_G_Hair_Long_1"@ || v == "NFT_G_Hair_Long_2"@ || v == "NFT_G_Hair_Long_3"@
            || v == "NFT_G_Hair_Long_11"@ || v == "NFT_G_Hair_Long_12"@),
    }
}

pub fn allows_headphone(g: Gender, v: &str) -> (r: bool)
    ensures
        r == spec_allows_headphone(g, v@),
{
    match g {
        Gender::Boy => !(str_eq(v, "NFT_B_Hair_Long_2") || str_eq(v, "NFT_B_Hair_Long_3")
            || str_eq(v, "NFT_B_Hair_Long_4") || str_eq(v, "NFT_B_Hair_Long_7") || str_eq(
            v,
            "NFT_B_Hair_Long_8",
        ) || str_eq(v, "NFT_B_Hair_Long_9") || str_eq(v, "NFT_B_Hair_Long_10") || str_eq(
            v,
            "NFT_B_Hair_Long_1",
        ) || str_eq(v, "NFT_B_Hair_Long_5") || str_eq(v, "NFT_B_Hair_Long_6")),
        Gender::Girl => !(str_eq(v, "NFT_G_Hair_Long_4") || str_eq(v, "NFT_G_Hair_Long_5")
            || str_eq(v, "NFT_G_Hair_Long_6") || str_eq(v, "NFT_G_Hair_Long_7") || str_eq(
            v,
            "NFT_G_Hair_Long_8",
        ) || str_eq(v, "NFT_G_Hair_Long_9") || str_eq(v, "NFT_G_Hair_Long_10") || str_eq(
            v,
            "NFT_G_Hair_Long_13",
        ) || str_eq(v, "NFT_G_Hair_Long_14") || str_eq(v, "NFT_G_Hair_Long_15") || str_eq(
            v,
            "NFT_G_Hair_Long_16",
        ) || str_eq(v, "NFT_G_Hair_Long_1") || str_eq(v, "NFT_G_Hair_Long_2") || str_eq(
            v,
            "NFT_G_Hair_Long_3",
        ) || str_eq(v, "NFT_G_Hair_Long_11") || str_eq(v, "NFT_G_Hair_Long_12")),
    }
}

/// Whether a FaceAcc layer may accompany the HairLong variant: three Boy
/// HairLong variants exclude it; for Girl it is always allowed.
pub open spec fn spec_allows_face_acc(g: Gender, v: Seq<char>) -> bool {
    match g {
        Gender::Boy => !(v == "NFT_B_Hair_Long_32"@ || v == "NFT_B_Hair_Long_33"@ || v
            == "NFT_B_Hair_Long_34"@),
        Gender::Girl => true,
    }
}

pub fn allows_face_acc(g: Gender, v: &str) -> (r: bool)
    ensures
        r == spec_allows_face_acc(g, v@),
{
    match g {
        Gender::Boy => !(str_eq(v, "NFT_B_Hair_Long_32") || str_eq(v, "NFT_B_Hair_Long_33")
            || str_eq(v, "NFT_B_Hair_Long_34")),
        Gender::Girl => true,
    }
}

proof fn lemma_derive_pair_boy_common(i: int)
    requires
        0 <= i < spec_hair_long(Gender::Boy, Rarity::Common).len(),
    ensures
        spec_derive_hair(spec_hair_long(Gender::Boy, Rarity::Common)[i]) == spec_hair(
            Gender::Boy,
            Rarity::Common,
        )[i],
        split_on(spec_hair_long(Gender::Boy, Rarity::Common)[i], '_').len() >= 2,
{
    reveal_strlit("Long");
    reveal_strlit("NFT_B_Hair");
    assert(!("Long"@).contains('_')) by {
        assert forall|j: int| 0 <= j < "Long"@.len() implies "Long"@[j] != '_' by {}
    }
    if i == 0 {
        reveal_strlit("NFT_B_Hair_Long_11");
        reveal_strlit("NFT_B_Hair_11");
        reveal_strlit("11");
        assert(!("11"@).contains('_')) by {
            assert forall|j: int| 0 <= j < "11"@.len() implies "11"@[j] != '_' by {}
        }
        assert("NFT_B_Hair_Long_11"@ =~= "NFT_B_Hair"@ + seq!['_'] + "Long"@ + seq!['_'] + "11"@);
        assert("NFT_B_Hair_11"@ =~= "NFT_B_Hair"@ + seq!['_'] + "11"@);
        lemma_derive_drops_token("NFT_B_Hair"@, "Long"@, "11"@);
    } else if i == 1 {
        reveal_strlit("NFT_B_Hair_Long_12");
        reveal_strlit("NFT_B_Hair_12");
        reveal_strlit("12");
        assert(!("12"@).contains('_')) by {
            assert forall|j: int| 0 <= j < "12"@.len() implies "12"@[j] != '_' by {}
        }
        assert("NFT_B_Hair_Long_12"@ =~= "NFT_B_Hair"@ + seq!['_'] + "Long"@ + seq!['_'] + "12"@);
        assert("NFT_B_Hair_12"@ =~= "NFT_B_Hair"@ + seq!['_'] + "12"@);
        lemma_derive_drops_token("NFT_B_Hair"@, "Long"@, "12"@);
    } else if i == 2 {
        reveal_strlit("NFT_B_Hair_Long_13");
        reveal_strlit("NFT_B_Hair_13");
        reveal_strlit("13");
        assert(!("13"@).contains('_')) by {
            assert forall|j: int| 0 <= j < "13"@.len() implies "13"@[j] != '_' by {}
        }
        assert("NFT_B_Hair_Long_13"@ =~= "NFT_B_Hair"@ + seq!['_'] + "Long"@ + seq!['_'] + "13"@);
        assert("NFT_B_Hair_13"@ =~= "NFT_B_Hair"@ + seq!['_'] + "13"@);
        lemma_derive_drops_token("NFT_B_Hair"@, "Long"@, "13"@);
    } else if i == 3 {
        reveal_strlit("NFT_B_Hair_Long_14");
        reveal_strlit("NFT_B_Hair_14");
        reveal_strlit("14");
        assert(!("14"@).contains('_')) by {
            assert forall|j: int| 0 <= j < "14"@.len() implies "14"@[j] != '_' by {}
        }
        assert("NFT_B_Hair_Long_14"@ =~= "NFT_B_Hair"@ + seq!['_'] + "Long"@ + seq!['_'] + "14"@);
        assert("NFT_B_Hair_14"@ =~= "NFT_B_Hair"@ + seq!['_'] + "14"@);
        lemma_derive_drops_token("NFT_B_Hair"@, "Long"@, "14"@);
    } else if i == 4 {
        reveal_strlit("NFT_B_Hair_Long_15");
        reveal_strlit("NFT_B_Hair_15");
        reveal_strlit("15");
        assert(!("15"@).contains('_')) by {
            assert forall|j: int| 0 <= j < "15"@.len() implies "15"@[j] != '_' by {}
        }
        assert("NFT_B_Hair_Long_15"@ =~= "NFT_B_Hair"@ + seq!['_'] + "Long"@ + seq!['_'] + "15"@);
        assert("NFT_B_Hair_15"@ =~= "NFT_B_Hair"@ + seq!['_'] + "15"@);
        lemma_derive_drops_token("NFT_B_Hair"@, "Long"@, "15"@);
    } else if i == 5 {
        reveal_strlit("NFT_B_Hair_Long_16");
        reveal_strlit("NFT_B_Hair_16");
        reveal_strlit("16");
        assert(!("16"@).contains('_')) by {
            assert forall|j: int| 0 <= j < "16"@.len() implies "16"@[j] != '_' by {}
        }
        assert("NFT_B_Hair_Long_16"@ =~= "NFT_B_Hair"@ + seq!['_'] + "Long"@ + seq!['_'] + "16"@);
        assert("NFT_B_Hair_16"@ =~= "NFT_B_Hair"@ + seq!['_'] + "16"@);
        lemma_derive_drops_token("NFT_B_Hair"@, "Long"@, "16"@);
    } else if i == 6 {
        reveal_strlit("NFT_B_Hair_Long_17");
        reveal_strlit("NFT_B_Hair_17");
        reveal_strlit("17");
        assert(!("17"@).contains('_')) by {
            assert forall|j: int| 0 <= j < "17"@.len() implies "17"@[j] != '_' by {}
        }
        assert("NFT_B_Hair_Long_17"@ =~= "NFT_B_Hair"@ + seq!['_'] + "Long"@ + seq!['_'] + "17"@);
        assert("NFT_B_Hair_17"@ =~= "NFT_B_Hair"@ + seq!['_'] + "17"@);
        lemma_derive_drops_token("NFT_B_Hair"@, "Long"@, "17"@);
    } else if i == 7 {
        reveal_strlit("NFT_B_Hair_Long_18");
        reveal_strlit("NFT_B_Hair_18");
        reveal_strlit("18");
        assert(!("18"@).contains('_')) by {
            assert forall|j: int| 0 <= j < "18"@.len() implies "18"@[j] != '_' by {}
        }
        assert("NFT_B_Hair_Long_18"@ =~= "NFT_B_Hair"@ + seq!['_'] + "Long"@ + seq!['_'] + "18"@);
        assert("NFT_B_Hair_18"@ =~= "NFT_B_Hair"@ + seq!['_'] + "18"@);
        lemma_derive_drops_token("NFT_B_Hair"@, "Long"@, "18"@);
    } else if i == 8 {
        reveal_strlit("NFT_B_Hair_Long_19");
        reveal_strlit("NFT_B_Hair_19");
        reveal_strlit("19");
        assert(!("19"@).contains('_')) by {
            assert forall|j: int| 0 <= j < "19"@.len() implies "19"@[j] != '_' by {}
        }
        assert("NFT_B_Hair_Long_19"@ =~= "NFT_B_Hair"@ + seq!['_'] + "Long"@ + seq!['_'] + "19"@);
        assert("NFT_B_Hair_19"@ =~= "NFT_B_Hair"@ + seq!['_'] + "19"@);
        lemma_derive_drops_token("NFT_B_Hair"@, "Long"@, "19"@);
    } else if i == 9 {
        reveal_strlit("NFT_B_Hair_Long_20");
        reveal_strlit("NFT_B_Hair_20");
        reveal_strlit("20");
        assert(!("20"@).contains('_')) by {
            assert forall|j: int| 0 <= j < "20"@.len() implies "20"@[j] != '_' by {}
        }
        assert("NFT_B_Hair_Long_20"@ =~= "NFT_B_Hair"@ + seq!['_'] + "Long"@ + seq!['_'] + "20"@);
        assert("NFT_B_Hair_20"@ =~= "NFT_B_Hair"@ + seq!['_'] + "20"@);
        lemma_derive_drops_token("NFT_B_Hair"@, "Long"@, "20"@);
    } else if i == 10 {
        reveal_strlit("NFT_B_Hair_Long_21");
        reveal_strlit("NFT_B_Hair_21");
        reveal_strlit("21");
        assert(!("21"@).contains('_')) by {
            assert forall|j: int| 0 <= j < "21"@.len() implies "21"@[j] != '_' by {}
        }
        assert("NFT_B_Hair_Long_21"@ =~= "NFT_B_Hair"@ + seq!['_'] + "Long"@ + seq!['_'] + "21"@);
        assert("NFT_B_Hair_21"@ =~= "NFT_B_Hair"@ + seq!['_'] + "21"@);
        lemma_derive_drops_token("NFT_B_Hair"@, "Long"@, "21"@);
    } else if i == 11 {
        reveal_strlit("NFT_B_Hair_Long_22");
        reveal_strlit("NFT_B_Hair_22");
        reveal_strlit("22");
        assert(!("22"@).contains('_')) by {
            assert forall|j: int| 0 <= j < "22"@.len() implies "22"@[j] != '_' by {}
        }
        assert("NFT_B_Hair_Long_22"@ =~= "NFT_B_Hair"@ + seq!['_'] + "Long"@ + seq!['_'] + "22"@);
        assert("NFT_B_Hair_22"@ =~= "NFT_B_Hair"@ + seq!['_'] + "22"@);
        lemma_derive_drops_token("NFT_B_Hair"@, "Long"@, "22"@);
    } else if i == 12 {
        reveal_strlit("NFT_B_Hair_Long_23");
        reveal_strlit("NFT_B_Hair_23");
        reveal_strlit("23");
        assert(!("23"@).contains('_')) by {
            assert forall|j: int| 0 <= j < "23"@.len() implies "23"@[j] != '_' by {}
        }
        assert("NFT_B_Hair_Long_23"@ =~= "NFT_B_Hair"@ + seq!['_'] + "Long"@ + seq!['_'] + "23"@);
        assert("NFT_B_Hair_23"@ =~= "NFT_B_Hair"@ + seq!['_'] + "23"@);
        lemma_derive_drops_token("NFT_B_Hair"@, "Long"@, "23"@);
    } else if i == 13 {
        reveal_strlit("NFT_B_Hair_Long_24");
        reveal_strlit("NFT_B_Hair_24");
        reveal_strlit("24");
        assert(!("24"@).contains('_')) by {
            assert forall|j: int| 0 <= j < "24"@.len() implies "24"@[j] != '_' by {}
        }
        assert("NFT_B_Hair_Long_24"@ =~= "NFT_B_Hair"@ + seq!['_'] + "Long"@ + seq!['_'] + "24"@);
        assert("NFT_B_Hair_24"@ =~= "NFT_B_Hair"@ + seq!['_'] + "24"@);
        lemma_derive_drops_token("NFT_B_Hair"@, "Long"@, "24"@);
    } else if i == 14 {
        reveal_strlit("NFT_B_Hair_Long_25");
        reveal_strlit("NFT_B_Hair_25");
        reveal_strlit("25");
        assert(!("25"@).contains('_')) by {
            assert forall|j: int| 0 <= j < "25"@.len() implies "25"@[j] != '_' by {}
        }
        assert("NFT_B_Hair_Long_25"@ =~= "NFT_B_Hair"@ + seq!['_'] + "Long"@ + seq!['_'] + "25"@);
        assert("NFT_B_Hair_25"@ =~= "NFT_B_Hair"@ + seq!['_'] + "25"@);
        lemma_derive_drops_token("NFT_B_Hair"@, "Long"@, "25"@);
    } else if i == 15 {
        reveal_strlit("NFT_B_Hair_Long_26");
        reveal_strlit("NFT_B_Hair_26");
        reveal_strlit("26");
        assert(!("26"@).contains('_')) by {
            assert forall|j: int| 0 <= j < "26"@.len() implies "26"@[j] != '_' by {}
        }
        assert("NFT_B_Hair_Long_26"@ =~= "NFT_B_Hair"@ + seq!['_'] + "Long"@ + seq!['_'] + "26"@);
        assert("NFT_B_Hair_26"@ =~= "NFT_B_Hair"@ + seq!['_'] + "26"@);
        lemma_derive_drops_token("NFT_B_Hair"@, "Long"@, "26"@);
    } else if i == 16 {
        reveal_strlit("NFT_B_Hair_Long_27");
        reveal_strlit("NFT_B_Hair_27");
        reveal_strlit("27");
        assert(!("27"@).contains('_')) by {
            assert forall|j: int| 0 <= j < "27"@.len() implies "27"@[j] != '_' by {}
        }
        assert("NFT_B_Hair_Long_27"@ =~= "NFT_B_Hair"@ + seq!['_'] + "Long"@ + seq!['_'] + "27"@);
        assert("NFT_B_Hair_27"@ =~= "NFT_B_Hair"@ + seq!['_'] + "27"@);
        lemma_derive_drops_token("NFT_B_Hair"@, "Long"@, "27"@);
    } else if i == 17 {
        reveal_strlit("NFT_B_Hair_Long_28");
        reveal_strlit("NFT_B_Hair_28");
        reveal_strlit("28");
        assert(!("28"@).contains('_')) by {
            assert forall|j: int| 0 <= j < "28"@.len() implies "28"@[j] != '_' by {}
        }
        assert("NFT_B_Hair_Long_28"@ =~= "NFT_B_Hair"@ + seq!['_'] + "Long"@ + seq!['_'] + "28"@);
        assert("NFT_B_Hair_28"@ =~= "NFT_B_Hair"@ + seq!['_'] + "28"@);
        lemma_derive_drops_token("NFT_B_Hair"@, "Long"@, "28"@);
    } else if i == 18 {
        reveal_strlit("NFT_B_Hair_Long_29");
        reveal_strlit("NFT_B_Hair_29");
        reveal_strlit("29");
        assert(!("29"@).contains('_')) by {
            assert forall|j: int| 0 <= j < "29"@.len() implies "29"@[j] != '_' by {}
        }
        assert("NFT_B_Hair_Long_29"@ =~= "NFT_B_Hair"@ + seq!['_'] + "Long"@ + seq!['_'] + "29"@);
        assert("NFT_B_Hair_29"@ =~= "NFT_B_Hair"@ + seq!['_'] + "29"@);
        lemma_derive_drops_token("NFT_B_Hair"@, "Long"@, "29"@);
    } else if i == 19 {
        reveal_strlit("NFT_B_Hair_Long_30");
        reveal_strlit("NFT_B_Hair_30");
        reveal_strlit("30");
        assert(!("30"@).contains('_')) by {
            assert forall|j: int| 0 <= j < "30"@.len() implies "30"@[j] != '_' by {}
        }
        assert("NFT_B_Hair_Long_30"@ =~= "NFT_B_Hair"@ + seq!['_'] + "Long"@ + seq!['_'] + "30"@);
        assert("NFT_B_Hair_30"@ =~= "NFT_B_Hair"@ + seq!['_'] + "30"@);
        lemma_derive_drops_token("NFT_B_Hair"@, "Long"@, "30"@);
    } else if i == 20 {
        reveal_strlit("NFT_B_Hair_Long_31");
        reveal_strlit("NFT_B_Hair_31");
        reveal_strlit("31");
        assert(!("31"@).contains('_')) by {
            assert forall|j: int| 0 <= j < "31"@.len() implies "31"@[j] != '_' by {}
        }
        assert("NFT_B_Hair_Long_31"@ =~= "NFT_B_Hair"@ + seq!['_'] + "Long"@ + seq!['_'] + "31"@);
        assert("NFT_B_Hair_31"@ =~= "NFT_B_Hair"@ + seq!['_'] + "31"@);
        lemma_derive_drops_token("NFT_B_Hair"@, "Long"@, "31"@);
    }
}

proof fn lemma_derive_pair_boy_uncommon(i: int)
    requires
        0 <= i < spec_hair_long(Gender::Boy, Rarity::Uncommon).len(),
    ensures
        spec_derive_hair(spec_hair_long(Gender::Boy, Rarity::Uncommon)[i]) == spec_hair(
            Gender::Boy,
            Rarity::Uncommon,
        )[i],
        split_on(spec_hair_long(Gender::Boy, Rarity::Uncommon)[i], '_').len() >= 2,
{
    reveal_strlit("Long");
    reveal_strlit("NFT_B_Hair");
    assert(!("Long"@).contains('_')) by {
        assert forall|j: int| 0 <= j < "Long"@.len() implies "Long"@[j] != '_' by {}
    }
    if i == 0 {
        reveal_strlit("NFT_B_Hair_Long_2");
        reveal_strlit("NFT_B_Hair_2");
        reveal_strlit("2");
        assert(!("2"@).contains('_')) by {
            assert forall|j: int| 0 <= j < "2"@.len() implies "2"@[j] != '_' by {}
        }
        assert("NFT_B_Hair_Long_2"@ =~= "NFT_B_Hair"@ + seq!['_'] + "Long"@ + seq!['_'] + "2"@);
        assert("NFT_B_Hair_2"@ =~= "NFT_B_Hair"@ + seq!['_'] + "2"@);
        lemma_derive_drops_token("NFT_B_Hair"@, "Long"@, "2"@);
    } else if i == 1 {
        reveal_strlit("NFT_B_Hair_Long_3");
        reveal_strlit("NFT_B_Hair_3");
        reveal_strlit("3");
        assert(!("3"@).contains('_')) by {
            assert forall|j: int| 0 <= j < "3"@.len() implies "3"@[j] != '_' by {}
        }
        assert("NFT_B_Hair_Long_3"@ =~= "NFT_B_Hair"@ + seq!['_'] + "Long"@ + seq!['_'] + "3"@);
        assert("NFT_B_Hair_3"@ =~= "NFT_B_Hair"@ + seq!['_'] + "3"@);
        lemma_derive_drops_token("NFT_B_Hair"@, "Long"@, "3"@);
    } else if i == 2 {
        reveal_strlit("NFT_B_Hair_Long_4");
        reveal_strlit("NFT_B_Hair_4");
        reveal_strlit("4");
        assert(!("4"@).contains('_')) by {
            assert forall|j: int| 0 <= j < "4"@.len() implies "4"@[j] != '_' by {}
        }
        assert("NFT_B_Hair_Long_4"@ =~= "NFT_B_Hair"@ + seq!['_'] + "Long"@ + seq!['_'] + "4"@);
        assert("NFT_B_Hair_4"@ =~= "NFT_B_Hair"@ + seq!['_'] + "4"@);
        lemma_derive_drops_token("NFT_B_Hair"@, "Long"@, "4"@);
    } else if i == 3 {
        reveal_strlit("NFT_B_Hair_Long_7");
        reveal_strlit("NFT_B_Hair_7");
        reveal_strlit("7");
        assert(!("7"@).contains('_')) by {
            assert forall|j: int| 0 <= j < "7"@.len() implies "7"@[j] != '_' by {}
        }
        assert("NFT_B_Hair_Long_7"@ =~= "NFT_B_Hair"@ + seq!['_'] + "Long"@ + seq!['_'] + "7"@);
        assert("NFT_B_Hair_7"@ =~= "NFT_B_Hair"@ + seq!['_'] + "7"@);
        lemma_derive_drops_token("NFT_B_Hair"@, "Long"@, "7"@);
    } else if i == 4 {
        reveal_strlit("NFT_B_Hair_Long_8");
        reveal_strlit("NFT_B_Hair_8");
        reveal_strlit("8");
        assert(!("8"@).contains('_')) by {
            assert forall|j: int| 0 <= j < "8"@.len() implies "8"@[j] != '_' by {}
        }
        assert("NFT_B_Hair_Long_8"@ =~= "NFT_B_Hair"@ + seq!['_'] + "Long"@ + seq!['_'] + "8"@);
        assert("NFT_B_Hair_8"@ =~= "NFT_B_Hair"@ + seq!['_'] + "8"@);
        lemma_derive_drops_token("NFT_B_Hair"@, "Long"@, "8"@);
    } else if i == 5 {
        reveal_strlit("NFT_B_Hair_Long_9");
        reveal_strlit("NFT_B_Hair_9");
        reveal_strlit("9");
        assert(!("9"@).contains('_')) by {
            assert forall|j: int| 0 <= j < "9"@.len() implies "9"@[j] != '_' by {}
        }
        assert("NFT_B_Hair_Long_9"@ =~= "NFT_B_Hair"@ + seq!['_'] + "Long"@ + seq!['_'] + "9"@);
        assert("NFT_B_Hair_9"@ =~= "NFT_B_Hair"@ + seq!['_'] + "9"@);
        lemma_derive_drops_token("NFT_B_Hair"@, "Long"@, "9"@);
    } else if i == 6 {
        reveal_strlit("NFT_B_Hair_Long_10");
        reveal_strlit("NFT_B_Hair_10");
        reveal_strlit("10");
        assert(!("10"@).contains('_')) by {
            assert forall|j: int| 0 <= j < "10"@.len() implies "10"@[j] != '_' by {}
        }
        assert("NFT_B_Hair_Long_10"@ =~= "NFT_B_Hair"@ + seq!['_'] + "Long"@ + seq!['_'] + "10"@);
        assert("NFT_B_Hair_10"@ =~= "NFT_B_Hair"@ + seq!['_'] + "10"@);
        lemma_derive_drops_token("NFT_B_Hair"@, "Long"@, "10"@);
    }
}

proof fn lemma_derive_pair_boy_rare(i: int)
    requires
        0 <= i < spec_hair_long(Gender::Boy, Rarity::Rare).len(),
    ensures
        spec_derive_hair(spec_hair_long(Gender::Boy, Rarity::Rare)[i]) == spec_hair(
            Gender::Boy,
            Rarity::Rare,
        )[i],
        split_on(spec_hair_long(Gender::Boy, Rarity::Rare)[i], '_').len() >= 2,
{
    reveal_strlit("Long");
    reveal_strlit("NFT_B_Hair");
    assert(!("Long"@).contains('_')) by {
        assert forall|j: int| 0 <= j < "Long"@.len() implies "Long"@[j] != '_' by {}
    }
    if i == 0 {
        reveal_strlit("NFT_B_Hair_Long_32");
        reveal_strlit("NFT_B_Hair_32");
        reveal_strlit("32");
        assert(!("32"@).contains('_')) by {
            assert forall|j: int| 0 <= j < "32"@.len() implies "32"@[j] != '_' by {}
        }
        assert("NFT_B_Hair_Long_32"@ =~= "NFT_B_Hair"@ + seq!['_'] + "Long"@ + seq!['_'] + "32"@);
        assert("NFT_B_Hair_32"@ =~= "NFT_B_Hair"@ + seq!['_'] + "32"@);
        lemma_derive_drops_token("NFT_B_Hair"@, "Long"@, "32"@);
    } else if i == 1 {
        reveal_strlit("NFT_B_Hair_Long_33");
        reveal_strlit("NFT_B_Hair_33");
        reveal_strlit("33");
        assert(!("33"@).contains('_')) by {
            assert forall|j: int| 0 <= j < "33"@.len() implies "33"@[j] != '_' by {}
        }
        assert("NFT_B_Hair_Long_33"@ =~= "NFT_B_Hair"@ + seq!['_'] + "Long"@ + seq!['_'] + "33"@);
        assert("NFT_B_Hair_33"@ =~= "NFT_B_Hair"@ + seq!['_'] + "33"@);
        lemma_derive_drops_token("NFT_B_Hair"@, "Long"@, "33"@);
    } else if i == 2 {
        reveal_strlit("NFT_B_Hair_Long_34");
        reveal_strlit("NFT_B_Hair_34");
        reveal_strlit("34");
        assert(!("34"@).contains('_')) by {
            assert forall|j: int| 0 <= j < "34"@.len() implies "34"@[j] != '_' by {}
        }
        assert("NFT_B_Hair_Long_34"@ =~= "NFT_B_Hair"@ + seq!['_'] + "Long"@ + seq!['_'] + "34"@);
        assert("NFT_B_Hair_34"@ =~= "NFT_B_Hair"@ + seq!['_'] + "34"@);
        lemma_derive_drops_token("NFT_B_Hair"@, "Long"@, "34"@);
    } else if i == 3 {
        reveal_strlit("NFT_B_Hair_Long_35");
        reveal_strlit("NFT_B_Hair_35");
        reveal_strlit("35");
        assert(!("35"@).contains('_')) by {
            assert forall|j: int| 0 <= j < "35"@.len() implies "35"@[j] != '_' by {}
        }
        assert("NFT_B_Hair_Long_35"@ =~= "NFT_B_Hair"@ + seq!['_'] + "Long"@ + seq!['_'] + "35"@);
        assert("NFT_B_Hair_35"@ =~= "NFT_B_Hair"@ + seq!['_'] + "35"@);
        lemma_derive_drops_token("NFT_B_Hair"@, "Long"@, "35"@);
    } else if i == 4 {
        reveal_strlit("NFT_B_Hair_Long_36");
        reveal_strlit("NFT_B_Hair_36");
        reveal_strlit("36");
        assert(!("36"@).contains('_')) by {
            assert forall|j: int| 0 <= j < "36"@.len() implies "36"@[j] != '_' by {}
        }
        assert("NFT_B_Hair_Long_36"@ =~= "NFT_B_Hair"@ + seq!['_'] + "Long"@ + seq!['_'] + "36"@);
        assert("NFT_B_Hair_36"@ =~= "NFT_B_Hair"@ + seq!['_'] + "36"@);
        lemma_derive_drops_token("NFT_B_Hair"@, "Long"@, "36"@);
    } else if i == 5 {
        reveal_strlit("NFT_B_Hair_Long_37");
        reveal_strlit("NFT_B_Hair_37");
        reveal_strlit("37");
        assert(!("37"@).contains('_')) by {
            assert forall|j: int| 0 <= j < "37"@.len() implies "37"@[j] != '_' by {}
        }
        assert("NFT_B_Hair_Long_37"@ =~= "NFT_B_Hair"@ + seq!['_'] + "Long"@ + seq!['_'] + "37"@);
        assert("NFT_B_Hair_37"@ =~= "NFT_B_Hair"@ + seq!['_'] + "37"@);
        lemma_derive_drops_token("NFT_B_Hair"@, "Long"@, "37"@);
    } else if i == 6 {
        reveal_strlit("NFT_B_Hair_Long_38");
        reveal_strlit("NFT_B_Hair_38");
        reveal_strlit("38");
        assert(!("38"@).contains('_')) by {
            assert forall|j: int| 0 <= j < "38"@.len() implies "38"@[j] != '_' by {}
        }
        assert("NFT_B_Hair_Long_38"@ =~= "NFT_B_Hair"@ + seq!['_'] + "Long"@ + seq!['_'] + "38"@);
        assert("NFT_B_Hair_38"@ =~= "NFT_B_Hair"@ + seq!['_'] + "38"@);
        lemma_derive_drops_token("NFT_B_Hair"@, "Long"@, "38"@);
    }
}

proof fn lemma_derive_pair_boy_epic(i: int)
    requires
        0 <= i < spec_hair_long(Gender::Boy, Rarity::Epic).len(),
    ensures
        spec_derive_hair(spec_hair_long(Gender::Boy, Rarity::Epic)[i]) == spec_hair(
            Gender::Boy,
            Rarity::Epic,
        )[i],
        split_on(spec_hair_long(Gender::Boy, Rarity::Epic)[i], '_').len() >= 2,
{
    reveal_strlit("Long");
    reveal_strlit("NFT_B_Hair");
    assert(!("Long"@).contains('_')) by {
        assert forall|j: int| 0 <= j < "Long"@.len() implies "Long"@[j] != '_' by {}
    }
    if i == 0 {
        reveal_strlit("NFT_B_Hair_Long_1");
        reveal_strlit("NFT_B_Hair_1");
        reveal_strlit("1");
        assert(!("1"@).contains('_')) by {
            assert forall|j: int| 0 <= j < "1"@.len() implies "1"@[j] != '_' by {}
        }
        assert("NFT_B_Hair_Long_1"@ =~= "NFT_B_Hair"@ + seq!['_'] + "Long"@ + seq!['_'] + "1"@);
        assert("NFT_B_Hair_1"@ =~= "NFT_B_Hair"@ + seq!['_'] + "1"@);
        lemma_derive_drops_token("NFT_B_Hair"@, "Long"@, "1"@);
    } else if i == 1 {
        reveal_strlit("NFT_B_Hair_Long_5");
        reveal_strlit("NFT_B_Hair_5");
        reveal_strlit("5");
        assert(!("5"@).contains('_')) by {
            assert forall|j: int| 0 <= j < "5"@.len() implies "5"@[j] != '_' by {}
        }
        assert("NFT_B_Hair_Long_5"@ =~= "NFT_B_Hair"@ + seq!['_'] + "Long"@ + seq!['_'] + "5"@);
        assert("NFT_B_Hair_5"@ =~= "NFT_B_Hair"@ + seq!['_'] + "5"@);
        lemma_derive_drops_token("NFT_B_Hair"@, "Long"@, "5"@);
    } else if i == 2 {
        reveal_strlit("NFT_B_Hair_Long_6");
        reveal_strlit("NFT_B_Hair_6");
        reveal_strlit("6");
        assert(!("6"@).contains('_')) by {
            assert forall|j: int| 0 <= j < "6"@.len() implies "6"@[j] != '_' by {}
        }
        assert("NFT_B_Hair_Long_6"@ =~= "NFT_B_Hair"@ + seq!['_'] + "Long"@ + seq!['_'] + "6"@);
        assert("NFT_B_Hair_6"@ =~= "NFT_B_Hair"@ + seq!['_'] + "6"@);
        lemma_derive_drops_token("NFT_B_Hair"@, "Long"@, "6"@);
    }
}

proof fn lemma_derive_pair_boy_legendary(i: int)
    requires
        0 <= i < spec_hair_long(Gender::Boy, Rarity::Legendary).len(),
    ensures
        spec_derive_hair(spec_hair_long(Gender::Boy, Rarity::Legendary)[i]) == spec_hair(
            Gender::Boy,
            Rarity::Legendary,
        )[i],
        split_on(spec_hair_long(Gender::Boy, Rarity::Legendary)[i], '_').len() >= 2,
{
    reveal_strlit("Long");
    reveal_strlit("NFT_B_Hair");
    assert(!("Long"@).contains('_')) by {
        assert forall|j: int| 0 <= j < "Long"@.len() implies "Long"@[j] != '_' by {}
    }
    if i == 0 {
        reveal_strlit("NFT_B_Hair_Long_39");
        reveal_strlit("NFT_B_Hair_39");
        reveal_strlit("39");
        assert(!("39"@).contains('_')) by {
            assert forall|j: int| 0 <= j < "39"@.len() implies "39"@[j] != '_' by {}
        }
        assert("NFT_B_Hair_Long_39"@ =~= "NFT_B_Hair"@ + seq!['_'] + "Long"@ + seq!['_'] + "39"@);
        assert("NFT_B_Hair_39"@ =~= "NFT_B_Hair"@ + seq!['_'] + "39"@);
        lemma_derive_drops_token("NFT_B_Hair"@, "Long"@, "39"@);
    } else if i == 1 {
        reveal_strlit("NFT_B_Hair_Long_41");
        reveal_strlit("NFT_B_Hair_41");
        reveal_strlit("41");
        assert(!("41"@).contains('_')) by {
            assert forall|j: int| 0 <= j < "41"@.len() implies "41"@[j] != '_' by {}
        }
        assert("NFT_B_Hair_Long_41"@ =~= "NFT_B_Hair"@ + seq!['_'] + "Long"@ + seq!['_'] + "41"@);
        assert("NFT_B_Hair_41"@ =~= "NFT_B_Hair"@ + seq!['_'] + "41"@);
        lemma_derive_drops_token("NFT_B_Hair"@, "Long"@, "41"@);
    }
}

proof fn lemma_derive_pair_boy_mythical(i: int)
    requires
        0 <= i < spec_hair_long(Gender::Boy, Rarity::Mythical).len(),
    ensures
        spec_derive_hair(spec_hair_long(Gender::Boy, Rarity::Mythical)[i]) == spec_hair(
            Gender::Boy,
            Rarity::Mythical,
        )[i],
        split_on(spec_hair_long(Gender::Boy, Rarity::Mythical)[i], '_').len() >= 2,
{
    reveal_strlit("Long");
    reveal_strlit("NFT_B_Hair");
    assert(!("Long"@).contains('_')) by {
        assert forall|j: int| 0 <= j < "Long"@.len() implies "Long"@[j] != '_' by {}
    }
    if i == 0 {
        reveal_strlit("NFT_B_Hair_Long_40");
        reveal_strlit("NFT_B_Hair_40");
        reveal_strlit("40");
        assert(!("40"@).contains('_')) by {
            assert forall|j: int| 0 <= j < "40"@.len() implies "40"@[j] != '_' by {}
        }
        assert("NFT_B_Hair_Long_40"@ =~= "NFT_B_Hair"@ + seq!['_'] + "Long"@ + seq!['_'] + "40"@);
        assert("NFT_B_Hair_40"@ =~= "NFT_B_Hair"@ + seq!['_'] + "40"@);
        lemma_derive_drops_token("NFT_B_Hair"@, "Long"@, "40"@);
    } else if i == 1 {
        reveal_strlit("NFT_B_Hair_Long_42");
        reveal_strlit("NFT_B_Hair_42");
        reveal_strlit("42");
        assert(!("42"@).contains('_')) by {
            assert forall|j: int| 0 <= j < "42"@.len() implies "42"@[j] != '_' by {}
        }
        assert("NFT_B_Hair_Long_42"@ =~= "NFT_B_Hair"@ + seq!['_'] + "Long"@ + seq!['_'] + "42"@);
        assert("NFT_B_Hair_42"@ =~= "NFT_B_Hair"@ + seq!['_'] + "42"@);
        lemma_derive_drops_token("NFT_B_Hair"@, "Long"@, "42"@);
    }
}

proof fn lemma_derive_pair_girl_common(i: int)
    requires
        0 <= i < spec_hair_long(Gender::Girl, Rarity::Common).len(),
    ensures
        spec_derive_hair(spec_hair_long(Gender::Girl, Rarity::Common)[i]) == spec_hair(
            Gender::Girl,
            Rarity::Common,
        )[i],
        split_on(spec_hair_long(Gender::Girl, Rarity::Common)[i], '_').len() >= 2,
{
    reveal_strlit("Long");
    reveal_strlit("NFT_G_Hair");
    assert(!("Long"@).contains('_')) by {
        assert forall|j: int| 0 <= j < "Long"@.len() implies "Long"@[j] != '_' by {}
    }
    if i == 0 {
        reveal_strlit("NFT_G_Hair_Long_17");
        reveal_strlit("NFT_G_Hair_17");
        reveal_strlit("17");
        assert(!("17"@).contains('_')) by {
            assert forall|j: int| 0 <= j < "17"@.len() implies "17"@[j] != '_' by {}
        }
        assert("NFT_G_Hair_Long_17"@ =~= "NFT_G_Hair"@ + seq!['_'] + "Long"@ + seq!['_'] + "17"@);
        assert("NFT_G_Hair_17"@ =~= "NFT_G_Hair"@ + seq!['_'] + "17"@);
        lemma_derive_drops_token("NFT_G_Hair"@, "Long"@, "17"@);
    } else if i == 1 {
        reveal_strlit("NFT_G_Hair_Long_18");
        reveal_strlit("NFT_G_Hair_18");
        reveal_strlit("18");
        assert(!("18"@).contains('_')) by {
            assert forall|j: int| 0 <= j < "18"@.len() implies "18"@[j] != '_' by {}
        }
        assert("NFT_G_Hair_Long_18"@ =~= "NFT_G_Hair"@ + seq!['_'] + "Long"@ + seq!['_'] + "18"@);
        assert("NFT_G_Hair_18"@ =~= "NFT_G_Hair"@ + seq!['_'] + "18"@);
        lemma_derive_drops_token("NFT_G_Hair"@, "Long"@, "18"@);
    } else if i == 2 {
        reveal_strlit("NFT_G_Hair_Long_19");
        reveal_strlit("NFT_G_Hair_19");
        reveal_strlit("19");
        assert(!("19"@).contains('_')) by {
            assert forall|j: int| 0 <= j < "19"@.len() implies "19"@[j] != '_' by {}
        }
        assert("NFT_G_Hair_Long_19"@ =~= "NFT_G_Hair"@ + seq!['_'] + "Long"@ + seq!['_'] + "19"@);
        assert("NFT_G_Hair_19"@ =~= "NFT_G_Hair"@ + seq!['_'] + "19"@);
        lemma_derive_drops_token("NFT_G_Hair"@, "Long"@, "19"@);
    } else if i == 3 {
        reveal_strlit("NFT_G_Hair_Long_20");
        reveal_strlit("NFT_G_Hair_20");
        reveal_strlit("20");
        assert(!("20"@).contains('_')) by {
            assert forall|j: int| 0 <= j < "20"@.len() implies "20"@[j] != '_' by {}
        }
        assert("NFT_G_Hair_Long_20"@ =~= "NFT_G_Hair"@ + seq!['_'] + "Long"@ + seq!['_'] + "20"@);
        assert("NFT_G_Hair_20"@ =~= "NFT_G_Hair"@ + seq!['_'] + "20"@);
        lemma_derive_drops_token("NFT_G_Hair"@, "Long"@, "20"@);
    } else if i == 4 {
        reveal_strlit("NFT_G_Hair_Long_21");
        reveal_strlit("NFT_G_Hair_21");
        reveal_strlit("21");
        assert(!("21"@).contains('_')) by {
            assert forall|j: int| 0 <= j < "21"@.len() implies "21"@[j] != '_' by {}
        }
        assert("NFT_G_Hair_Long_21"@ =~= "NFT_G_Hair"@ + seq!['_'] + "Long"@ + seq!['_'] + "21"@);
        assert("NFT_G_Hair_21"@ =~= "NFT_G_Hair"@ + seq!['_'] + "21"@);
        lemma_derive_drops_token("NFT_G_Hair"@, "Long"@, "21"@);
    } else if i == 5 {
        reveal_strlit("NFT_G_Hair_Long_22");
        reveal_strlit("NFT_G_Hair_22");
        reveal_strlit("22");
        assert(!("22"@).contains('_')) by {
            assert forall|j: int| 0 <= j < "22"@.len() implies "22"@[j] != '_' by {}
        }
        assert("NFT_G_Hair_Long_22"@ =~= "NFT_G_Hair"@ + seq!['_'] + "Long"@ + seq!['_'] + "22"@);
        assert("NFT_G_Hair_22"@ =~= "NFT_G_Hair"@ + seq!['_'] + "22"@);
        lemma_derive_drops_token("NFT_G_Hair"@, "Long"@, "22"@);
    } else if i == 6 {
        reveal_strlit("NFT_G_Hair_Long_23");
        reveal_strlit("NFT_G_Hair_23");
        reveal_strlit("23");
        assert(!("23"@).contains('_')) by {
            assert forall|j: int| 0 <= j < "23"@.len() implies "23"@[j] != '_' by {}
        }
        assert("NFT_G_Hair_Long_23"@ =~= "NFT_G_Hair"@ + seq!['_'] + "Long"@ + seq!['_'] + "23"@);
        assert("NFT_G_Hair_23"@ =~= "NFT_G_Hair"@ + seq!['_'] + "23"@);
        lemma_derive_drops_token("NFT_G_Hair"@, "Long"@, "23"@);
    } else if i == 7 {
        reveal_strlit("NFT_G_Hair_Long_24");
        reveal_strlit("NFT_G_Hair_24");
        reveal_strlit("24");
        assert(!("24"@).contains('_')) by {
            assert forall|j: int| 0 <= j < "24"@.len() implies "24"@[j] != '_' by {}
        }
        assert("NFT_G_Hair_Long_24"@ =~= "NFT_G_Hair"@ + seq!['_'] + "Long"@ + seq!['_'] + "24"@);
        assert("NFT_G_Hair_24"@ =~= "NFT_G_Hair"@ + seq!['_'] + "24"@);
        lemma_derive_drops_token("NFT_G_Hair"@, "Long"@, "24"@);
    } else if i == 8 {
        reveal_strlit("NFT_G_Hair_Long_25");
        reveal_strlit("NFT_G_Hair_25");
        reveal_strlit("25");
        assert(!("25"@).contains('_')) by {
            assert forall|j: int| 0 <= j < "25"@.len() implies "25"@[j] != '_' by {}
        }
        assert("NFT_G_Hair_Long_25"@ =~= "NFT_G_Hair"@ + seq!['_'] + "Long"@ + seq!['_'] + "25"@);
        assert("NFT_G_Hair_25"@ =~= "NFT_G_Hair"@ + seq!['_'] + "25"@);
        lemma_derive_drops_token("NFT_G_Hair"@, "Long"@, "25"@);
    } else if i == 9 {
        reveal_strlit("NFT_G_Hair_Long_26");
        reveal_strlit("NFT_G_Hair_26");
        reveal_strlit("26");
        assert(!("26"@).contains('_')) by {
            assert forall|j: int| 0 <= j < "26"@.len() implies "26"@[j] != '_' by {}
        }
        assert("NFT_G_Hair_Long_26"@ =~= "NFT_G_Hair"@ + seq!['_'] + "Long"@ + seq!['_'] + "26"@);
        assert("NFT_G_Hair_26"@ =~= "NFT_G_Hair"@ + seq!['_'] + "26"@);
        lemma_derive_drops_token("NFT_G_Hair"@, "Long"@, "26"@);
    } else if i == 10 {
        reveal_strlit("NFT_G_Hair_Long_27");
        reveal_strlit("NFT_G_Hair_27");
        reveal_strlit("27");
        assert(!("27"@).contains('_')) by {
            assert forall|j: int| 0 <= j < "27"@.len() implies "27"@[j] != '_' by {}
        }
        assert("NFT_G_Hair_Long_27"@ =~= "NFT_G_Hair"@ + seq!['_'] + "Long"@ + seq!['_'] + "27"@);
        assert("NFT_G_Hair_27"@ =~= "NFT_G_Hair"@ + seq!['_'] + "27"@);
        lemma_derive_drops_token("NFT_G_Hair"@, "Long"@, "27"@);
    } else if i == 11 {
        reveal_strlit("NFT_G_Hair_Long_28");
        reveal_strlit("NFT_G_Hair_28");
        reveal_strlit("28");
        assert(!("28"@).contains('_')) by {
            assert forall|j: int| 0 <= j < "28"@.len() implies "28"@[j] != '_' by {}
        }
        assert("NFT_G_Hair_Long_28"@ =~= "NFT_G_Hair"@ + seq!['_'] + "Long"@ + seq!['_'] + "28"@);
        assert("NFT_G_Hair_28"@ =~= "NFT_G_Hair"@ + seq!['_'] + "28"@);
        lemma_derive_drops_token("NFT_G_Hair"@, "Long"@, "28"@);
    } else if i == 12 {
        reveal_strlit("NFT_G_Hair_Long_29");
        reveal_strlit("NFT_G_Hair_29");
        reveal_strlit("29");
        assert(!("29"@).contains('_')) by {
            assert forall|j: int| 0 <= j < "29"@.len() implies "29"@[j] != '_' by {}
        }
        assert("NFT_G_Hair_Long_29"@ =~= "NFT_G_Hair"@ + seq!['_'] + "Long"@ + seq!['_'] + "29"@);
        assert("NFT_G_Hair_29"@ =~= "NFT_G_Hair"@ + seq!['_'] + "29"@);
        lemma_derive_drops_token("NFT_G_Hair"@, "Long"@, "29"@);
    } else if i == 13 {
        reveal_strlit("NFT_G_Hair_Long_30");
        reveal_strlit("NFT_G_Hair_30");
        reveal_strlit("30");
        assert(!("30"@).contains('_')) by {
            assert forall|j: int| 0 <= j < "30"@.len() implies "30"@[j] != '_' by {}
        }
        assert("NFT_G_Hair_Long_30"@ =~= "NFT_G_Hair"@ + seq!['_'] + "Long"@ + seq!['_'] + "30"@);
        assert("NFT_G_Hair_30"@ =~= "NFT_G_Hair"@ + seq!['_'] + "30"@);
        lemma_derive_drops_token("NFT_G_Hair"@, "Long"@, "30"@);
    } else if i == 14 {
        reveal_strlit("NFT_G_Hair_Long_31");
        reveal_strlit("NFT_G_Hair_31");
        reveal_strlit("31");
        assert(!("31"@).contains('_')) by {
            assert forall|j: int| 0 <= j < "31"@.len() implies "31"@[j] != '_' by {}
        }
        assert("NFT_G_Hair_Long_31"@ =~= "NFT_G_Hair"@ + seq!['_'] + "Long"@ + seq!['_'] + "31"@);
        assert("NFT_G_Hair_31"@ =~= "NFT_G_Hair"@ + seq!['_'] + "31"@);
        lemma_derive_drops_token("NFT_G_Hair"@, "Long"@, "31"@);
    }
}

proof fn lemma_derive_pair_girl_uncommon(i: int)
    requires
        0 <= i < spec_hair_long(Gender::Girl, Rarity::Uncommon).len(),
    ensures
        spec_derive_hair(spec_hair_long(Gender::Girl, Rarity::Uncommon)[i]) == spec_hair(
            Gender::Girl,
            Rarity::Uncommon,
        )[i],
        split_on(spec_hair_long(Gender::Girl, Rarity::Uncommon)[i], '_').len() >= 2,
{
    reveal_strlit("Long");
    reveal_strlit("NFT_G_Hair");
    assert(!("Long"@).contains('_')) by {
        assert forall|j: int| 0 <= j < "Long"@.len() implies "Long"@[j] != '_' by {}
    }
    if i == 0 {
        reveal_strlit("NFT_G_Hair_Long_4");
        reveal_strlit("NFT_G_Hair_4");
        reveal_strlit("4");
        assert(!("4"@).contains('_')) by {
            assert forall|j: int| 0 <= j < "4"@.len() implies "4"@[j] != '_' by {}
        }
        assert("NFT_G_Hair_Long_4"@ =~= "NFT_G_Hair"@ + seq!['_'] + "Long"@ + seq!['_'] + "4"@);
        assert("NFT_G_Hair_4"@ =~= "NFT_G_Hair"@ + seq!['_'] + "4"@);
        lemma_derive_drops_token("NFT_G_Hair"@, "Long"@, "4"@);
    } else if i == 1 {
        reveal_strlit("NFT_G_Hair_Long_5");
        reveal_strlit("NFT_G_Hair_5");
        reveal_strlit("5");
        assert(!("5"@).contains('_')) by {
            assert forall|j: int| 0 <= j < "5"@.len() implies "5"@[j] != '_' by {}
        }
        assert("NFT_G_Hair_Long_5"@ =~= "NFT_G_Hair"@ + seq!['_'] + "Long"@ + seq!['_'] + "5"@);
        assert("NFT_G_Hair_5"@ =~= "NFT_G_Hair"@ + seq!['_'] + "5"@);
        lemma_derive_drops_token("NFT_G_Hair"@, "Long"@, "5"@);
    } else if i == 2 {
        reveal_strlit("NFT_G_Hair_Long_6");
        reveal_strlit("NFT_G_Hair_6");
        reveal_strlit("6");
        assert(!("6"@).contains('_')) by {
            assert forall|j: int| 0 <= j < "6"@.len() implies "6"@[j] != '_' by {}
        }
        assert("NFT_G_Hair_Long_6"@ =~= "NFT_G_Hair"@ + seq!['_'] + "Long"@ + seq!['_'] + "6"@);
        assert("NFT_G_Hair_6"@ =~= "NFT_G_Hair"@ + seq!['_'] + "6"@);
        lemma_derive_drops_token("NFT_G_Hair"@, "Long"@, "6"@);
    } else if i == 3 {
        reveal_strlit("NFT_G_Hair_Long_7");
        reveal_strlit("NFT_G_Hair_7");
        reveal_strlit("7");
        assert(!("7"@).contains('_')) by {
            assert forall|j: int| 0 <= j < "7"@.len() implies "7"@[j] != '_' by {}
        }
        assert("NFT_G_Hair_Long_7"@ =~= "NFT_G_Hair"@ + seq!['_'] + "Long"@ + seq!['_'] + "7"@);
        assert("NFT_G_Hair_7"@ =~= "NFT_G_Hair"@ + seq!['_'] + "7"@);
        lemma_derive_drops_token("NFT_G_Hair"@, "Long"@, "7"@);
    } else if i == 4 {
        reveal_strlit("NFT_G_Hair_Long_8");
        reveal_strlit("NFT_G_Hair_8");
        reveal_strlit("8");
        assert(!("8"@).contains('_')) by {
            assert forall|j: int| 0 <= j < "8"@.len() implies "8"@[j] != '_' by {}
        }
        assert("NFT_G_Hair_Long_8"@ =~= "NFT_G_Hair"@ + seq!['_'] + "Long"@ + seq!['_'] + "8"@);
        assert("NFT_G_Hair_8"@ =~= "NFT_G_Hair"@ + seq!['_'] + "8"@);
        lemma_derive_drops_token("NFT_G_Hair"@, "Long"@, "8"@);
    } else if i == 5 {
        reveal_strlit("NFT_G_Hair_Long_9");
        reveal_strlit("NFT_G_Hair_9");
        reveal_strlit("9");
        assert(!("9"@).contains('_')) by {
            assert forall|j: int| 0 <= j < "9"@.len() implies "9"@[j] != '_' by {}
        }
        assert("NFT_G_Hair_Long_9"@ =~= "NFT_G_Hair"@ + seq!['_'] + "Long"@ + seq!['_'] + "9"@);
        assert("NFT_G_Hair_9"@ =~= "NFT_G_Hair"@ + seq!['_'] + "9"@);
        lemma_derive_drops_token("NFT_G_Hair"@, "Long"@, "9"@);
    } else if i == 6 {
        reveal_strlit("NFT_G_Hair_Long_10");
        reveal_strlit("NFT_G_Hair_10");
        reveal_strlit("10");
        assert(!("10"@).contains('_')) by {
            assert forall|j: int| 0 <= j < "10"@.len() implies "10"@[j] != '_' by {}
        }
        assert("NFT_G_Hair_Long_10"@ =~= "NFT_G_Hair"@ + seq!['_'] + "Long"@ + seq!['_'] + "10"@);
        assert("NFT_G_Hair_10"@ =~= "NFT_G_Hair"@ + seq!['_'] + "10"@);
        lemma_derive_drops_token("NFT_G_Hair"@, "Long"@, "10"@);
    } else if i == 7 {
        reveal_strlit("NFT_G_Hair_Long_13");
        reveal_strlit("NFT_G_Hair_13");
        reveal_strlit("13");
        assert(!("13"@).contains('_')) by {
            assert forall|j: int| 0 <= j < "13"@.len() implies "13"@[j] != '_' by {}
        }
        assert("NFT_G_Hair_Long_13"@ =~= "NFT_G_Hair"@ + seq!['_'] + "Long"@ + seq!['_'] + "13"@);
        assert("NFT_G_Hair_13"@ =~= "NFT_G_Hair"@ + seq!['_'] + "13"@);
        lemma_derive_drops_token("NFT_G_Hair"@, "Long"@, "13"@);
    } else if i == 8 {
        reveal_strlit("NFT_G_Hair_Long_14");
        reveal_strlit("NFT_G_Hair_14");
        reveal_strlit("14");
        assert(!("14"@).contains('_')) by {
            assert forall|j: int| 0 <= j < "14"@.len() implies "14"@[j] != '_' by {}
        }
        assert("NFT_G_Hair_Long_14"@ =~= "NFT_G_Hair"@ + seq!['_'] + "Long"@ + seq!['_'] + "14"@);
        assert("NFT_G_Hair_14"@ =~= "NFT_G_Hair"@ + seq!['_'] + "14"@);
        lemma_derive_drops_token("NFT_G_Hair"@, "Long"@, "14"@);
    } else if i == 9 {
        reveal_strlit("NFT_G_Hair_Long_15");
        reveal_strlit("NFT_G_Hair_15");
        reveal_strlit("15");
        assert(!("15"@).contains('_')) by {
            assert forall|j: int| 0 <= j < "15"@.len() implies "15"@[j] != '_' by {}
        }
        assert("NFT_G_Hair_Long_15"@ =~= "NFT_G_Hair"@ + seq!['_'] + "Long"@ + seq!['_'] + "15"@);
        assert("NFT_G_Hair_15"@ =~= "NFT_G_Hair"@ + seq!['_'] + "15"@);
        lemma_derive_drops_token("NFT_G_Hair"@, "Long"@, "15"@);
    } else if i == 10 {
        reveal_strlit("NFT_G_Hair_Long_16");
        reveal_strlit("NFT_G_Hair_16");
        reveal_strlit("16");
        assert(!("16"@).contains('_')) by {
            assert forall|j: int| 0 <= j < "16"@.len() implies "16"@[j] != '_' by {}
        }
        assert("NFT_G_Hair_Long_16"@ =~= "NFT_G_Hair"@ + seq!['_'] + "Long"@ + seq!['_'] + "16"@);
        assert("NFT_G_Hair_16"@ =~= "NFT_G_Hair"@ + seq!['_'] + "16"@);
        lemma_derive_drops_token("NFT_G_Hair"@, "Long"@, "16"@);
    } else if i == 11 {
        reveal_strlit("NFT_G_Hair_Long_32");
        reveal_strlit("NFT_G_Hair_32");
        reveal_strlit("32");
        assert(!("32"@).contains('_')) by {
            assert forall|j: int| 0 <= j < "32"@.len() implies "32"@[j] != '_' by {}
        }
        assert("NFT_G_Hair_Long_32"@ =~= "NFT_G_Hair"@ + seq!['_'] + "Long"@ + seq!['_'] + "32"@);
        assert("NFT_G_Hair_32"@ =~= "NFT_G_Hair"@ + seq!['_'] + "32"@);
        lemma_derive_drops_token("NFT_G_Hair"@, "Long"@, "32"@);
    } else if i == 12 {
        reveal_strlit("NFT_G_Hair_Long_33");
        reveal_strlit("NFT_G_Hair_33");
        reveal_strlit("33");
        assert(!("33"@).contains('_')) by {
            assert forall|j: int| 0 <= j < "33"@.len() implies "33"@[j] != '_' by {}
        }
        assert("NFT_G_Hair_Long_33"@ =~= "NFT_G_Hair"@ + seq!['_'] + "Long"@ + seq!['_'] + "33"@);
        assert("NFT_G_Hair_33"@ =~= "NFT_G_Hair"@ + seq!['_'] + "33"@);
        lemma_derive_drops_token("NFT_G_Hair"@, "Long"@, "33"@);
    } else if i == 13 {
        reveal_strlit("NFT_G_Hair_Long_37");
        reveal_strlit("NFT_G_Hair_37");
        reveal_strlit("37");
        assert(!("37"@).contains('_')) by {
            assert forall|j: int| 0 <= j < "37"@.len() implies "37"@[j] != '_' by {}
        }
        assert("NFT_G_Hair_Long_37"@ =~= "NFT_G_Hair"@ + seq!['_'] + "Long"@ + seq!['_'] + "37"@);
        assert("NFT_G_Hair_37"@ =~= "NFT_G_Hair"@ + seq!['_'] + "37"@);
        lemma_derive_drops_token("NFT_G_Hair"@, "Long"@, "37"@);
    } else if i == 14 {
        reveal_strlit("NFT_G_Hair_Long_38");
        reveal_strlit("NFT_G_Hair_38");
        reveal_strlit("38");
        assert(!("38"@).contains('_')) by {
            assert forall|j: int| 0 <= j < "38"@.len() implies "38"@[j] != '_' by {}
        }
        assert("NFT_G_Hair_Long_38"@ =~= "NFT_G_Hair"@ + seq!['_'] + "Long"@ + seq!['_'] + "38"@);
        assert("NFT_G_Hair_38"@ =~= "NFT_G_Hair"@ + seq!['_'] + "38"@);
        lemma_derive_drops_token("NFT_G_Hair"@, "Long"@, "38"@);
    } else if i == 15 {
        reveal_strlit("NFT_G_Hair_Long_39");
        reveal_strlit("NFT_G_Hair_39");
        reveal_strlit("39");
        assert(!("39"@).contains('_')) by {
            assert forall|j: int| 0 <= j < "39"@.len() implies "39"@[j] != '_' by {}
        }
        assert("NFT_G_Hair_Long_39"@ =~= "NFT_G_Hair"@ + seq!['_'] + "Long"@ + seq!['_'] + "39"@);
        assert("NFT_G_Hair_39"@ =~= "NFT_G_Hair"@ + seq!['_'] + "39"@);
        lemma_derive_drops_token("NFT_G_Hair"@, "Long"@, "39"@);
    } else if i == 16 {
        reveal_strlit("NFT_G_Hair_Long_40");
        reveal_strlit("NFT_G_Hair_40");
        reveal_strlit("40");
        assert(!("40"@).contains('_')) by {
            assert forall|j: int| 0 <= j < "40"@.len() implies "40"@[j] != '_' by {}
        }
        assert("NFT_G_Hair_Long_40"@ =~= "NFT_G_Hair"@ + seq!['_'] + "Long"@ + seq!['_'] + "40"@);
        assert("NFT_G_Hair_40"@ =~= "NFT_G_Hair"@ + seq!['_'] + "40"@);
        lemma_derive_drops_token("NFT_G_Hair"@, "Long"@, "40"@);
    } else if i == 17 {
        reveal_strlit("NFT_G_Hair_Long_41");
        reveal_strlit("NFT_G_Hair_41");
        reveal_strlit("41");
        assert(!("41"@).contains('_')) by {
            assert forall|j: int| 0 <= j < "41"@.len() implies "41"@[j] != '_' by {}
        }
        assert("NFT_G_Hair_Long_41"@ =~= "NFT_G_Hair"@ + seq!['_'] + "Long"@ + seq!['_'] + "41"@);
        assert("NFT_G_Hair_41"@ =~= "NFT_G_Hair"@ + seq!['_'] + "41"@);
        lemma_derive_drops_token("NFT_G_Hair"@, "Long"@, "41"@);
    } else if i == 18 {
        reveal_strlit("NFT_G_Hair_Long_42");
        reveal_strlit("NFT_G_Hair_42");
        reveal_strlit("42");
        assert(!("42"@).contains('_')) by {
            assert forall|j: int| 0 <= j < "42"@.len() implies "42"@[j] != '_' by {}
        }
        assert("NFT_G_Hair_Long_42"@ =~= "NFT_G_Hair"@ + seq!['_'] + "Long"@ + seq!['_'] + "42"@);
        assert("NFT_G_Hair_42"@ =~= "NFT_G_Hair"@ + seq!['_'] + "42"@);
        lemma_derive_drops_token("NFT_G_Hair"@, "Long"@, "42"@);
    }
}

proof fn lemma_derive_pair_girl_rare(i: int)
    requires
        0 <= i < spec_hair_long(Gender::Girl, Rarity::Rare).len(),
    ensures
        spec_derive_hair(spec_hair_long(Gender::Girl, Rarity::Rare)[i]) == spec_hair(
            Gender::Girl,
            Rarity::Rare,
        )[i],
        split_on(spec_hair_long(Gender::Girl, Rarity::Rare)[i], '_').len() >= 2,
{
    reveal_strlit("Long");
    reveal_strlit("NFT_G_Hair");
    assert(!("Long"@).contains('_')) by {
        assert forall|j: int| 0 <= j < "Long"@.len() implies "Long"@[j] != '_' by {}
    }
    if i == 0 {
        reveal_strlit("NFT_G_Hair_Long_34");
        reveal_strlit("NFT_G_Hair_34");
        reveal_strlit("34");
        assert(!("34"@).contains('_')) by {
            assert forall|j: int| 0 <= j < "34"@.len() implies "34"@[j] != '_' by {}
        }
        assert("NFT_G_Hair_Long_34"@ =~= "NFT_G_Hair"@ + seq!['_'] + "Long"@ + seq!['_'] + "34"@);
        assert("NFT_G_Hair_34"@ =~= "NFT_G_Hair"@ + seq!['_'] + "34"@);
        lemma_derive_drops_token("NFT_G_Hair"@, "Long"@, "34"@);
    } else if i == 1 {
        reveal_strlit("NFT_G_Hair_Long_35");
        reveal_strlit("NFT_G_Hair_35");
        reveal_strlit("35");
        assert(!("35"@).contains('_')) by {
            assert forall|j: int| 0 <= j < "35"@.len() implies "35"@[j] != '_' by {}
        }
        assert("NFT_G_Hair_Long_35"@ =~= "NFT_G_Hair"@ + seq!['_'] + "Long"@ + seq!['_'] + "35"@);
        assert("NFT_G_Hair_35"@ =~= "NFT_G_Hair"@ + seq!['_'] + "35"@);
        lemma_derive_drops_token("NFT_G_Hair"@, "Long"@, "35"@);
    } else if i == 2 {
        reveal_strlit("NFT_G_Hair_Long_36");
        reveal_strlit("NFT_G_Hair_36");
        reveal_strlit("36");
        assert(!("36"@).contains('_')) by {
            assert forall|j: int| 0 <= j < "36"@.len() implies "36"@[j] != '_' by {}
        }
        assert("NFT_G_Hair_Long_36"@ =~= "NFT_G_Hair"@ + seq!['_'] + "Long"@ + seq!['_'] + "36"@);
        assert("NFT_G_Hair_36"@ =~= "NFT_G_Hair"@ + seq!['_'] + "36"@);
        lemma_derive_drops_token("NFT_G_Hair"@, "Long"@, "36"@);
    }
}

proof fn lemma_derive_pair_girl_epic(i: int)
    requires
        0 <= i < spec_hair_long(Gender::Girl, Rarity::Epic).len(),
    ensures
        spec_derive_hair(spec_hair_long(Gender::Girl, Rarity::Epic)[i]) == spec_hair(
            Gender::Girl,
            Rarity::Epic,
        )[i],
        split_on(spec_hair_long(Gender::Girl, Rarity::Epic)[i], '_').len() >= 2,
{
    reveal_strlit("Long");
    reveal_strlit("NFT_G_Hair");
    assert(!("Long"@).contains('_')) by {
        assert forall|j: int| 0 <= j < "Long"@.len() implies "Long"@[j] != '_' by {}
    }
    if i == 0 {
        reveal_strlit("NFT_G_Hair_Long_1");
        reveal_strlit("NFT_G_Hair_1");
        reveal_strlit("1");
        assert(!("1"@).contains('_')) by {
            assert forall|j: int| 0 <= j < "1"@.len() implies "1"@[j] != '_' by {}
        }
        assert("NFT_G_Hair_Long_1"@ =~= "NFT_G_Hair"@ + seq!['_'] + "Long"@ + seq!['_'] + "1"@);
        assert("NFT_G_Hair_1"@ =~= "NFT_G_Hair"@ + seq!['_'] + "1"@);
        lemma_derive_drops_token("NFT_G_Hair"@, "Long"@, "1"@);
    } else if i == 1 {
        reveal_strlit("NFT_G_Hair_Long_2");
        reveal_strlit("NFT_G_Hair_2");
        reveal_strlit("2");
        assert(!("2"@).contains('_')) by {
            assert forall|j: int| 0 <= j < "2"@.len() implies "2"@[j] != '_' by {}
        }
        assert("NFT_G_Hair_Long_2"@ =~= "NFT_G_Hair"@ + seq!['_'] + "Long"@ + seq!['_'] + "2"@);
        assert("NFT_G_Hair_2"@ =~= "NFT_G_Hair"@ + seq!['_'] + "2"@);
        lemma_derive_drops_token("NFT_G_Hair"@, "Long"@, "2"@);
    } else if i == 2 {
        reveal_strlit("NFT_G_Hair_Long_3");
        reveal_strlit("NFT_G_Hair_3");
        reveal_strlit("3");
        assert(!("3"@).contains('_')) by {
            assert forall|j: int| 0 <= j < "3"@.len() implies "3"@[j] != '_' by {}
        }
        assert("NFT_G_Hair_Long_3"@ =~= "NFT_G_Hair"@ + seq!['_'] + "Long"@ + seq!['_'] + "3"@);
        assert("NFT_G_Hair_3"@ =~= "NFT_G_Hair"@ + seq!['_'] + "3"@);
        lemma_derive_drops_token("NFT_G_Hair"@, "Long"@, "3"@);
    } else if i == 3 {
        reveal_strlit("NFT_G_Hair_Long_11");
        reveal_strlit("NFT_G_Hair_11");
        reveal_strlit("11");
        assert(!("11"@).contains('_')) by {
            assert forall|j: int| 0 <= j < "11"@.len() implies "11"@[j] != '_' by {}
        }
        assert("NFT_G_Hair_Long_11"@ =~= "NFT_G_Hair"@ + seq!['_'] + "Long"@ + seq!['_'] + "11"@);
        assert("NFT_G_Hair_11"@ =~= "NFT_G_Hair"@ + seq!['_'] + "11"@);
        lemma_derive_drops_token("NFT_G_Hair"@, "Long"@, "11"@);
    } else if i == 4 {
        reveal_strlit("NFT_G_Hair_Long_12");
        reveal_strlit("NFT_G_Hair_12");
        reveal_strlit("12");
        assert(!("12"@).contains('_')) by {
            assert forall|j: int| 0 <= j < "12"@.len() implies "12"@[j] != '_' by {}
        }
        assert("NFT_G_Hair_Long_12"@ =~= "NFT_G_Hair"@ + seq!['_'] + "Long"@ + seq!['_'] + "12"@);
        assert("NFT_G_Hair_12"@ =~= "NFT_G_Hair"@ + seq!['_'] + "12"@);
        lemma_derive_drops_token("NFT_G_Hair"@, "Long"@, "12"@);
    }
}

proof fn lemma_derive_pair_girl_legendary(i: int)
    requires
        0 <= i < spec_hair_long(Gender::Girl, Rarity::Legendary).len(),
    ensures
        spec_derive_hair(spec_hair_long(Gender::Girl, Rarity::Legendary)[i]) == spec_hair(
            Gender::Girl,
            Rarity::Legendary,
        )[i],
        split_on(spec_hair_long(Gender::Girl, Rarity::Legendary)[i], '_').len() >= 2,
{
    reveal_strlit("Long");
    reveal_strlit("NFT_G_Hair");
    assert(!("Long"@).contains('_')) by {
        assert forall|j: int| 0 <= j < "Long"@.len() implies "Long"@[j] != '_' by {}
    }
    if i == 0 {
        reveal_strlit("NFT_G_Hair_Long_43");
        reveal_strlit("NFT_G_Hair_43");
        reveal_strlit("43");
        assert(!("43"@).contains('_')) by {
            assert forall|j: int| 0 <= j < "43"@.len() implies "43"@[j] != '_' by {}
        }
        assert("NFT_G_Hair_Long_43"@ =~= "NFT_G_Hair"@ + seq!['_'] + "Long"@ + seq!['_'] + "43"@);
        assert("NFT_G_Hair_43"@ =~= "NFT_G_Hair"@ + seq!['_'] + "43"@);
        lemma_derive_drops_token("NFT_G_Hair"@, "Long"@, "43"@);
    } else if i == 1 {
        reveal_strlit("NFT_G_Hair_Long_45");
        reveal_strlit("NFT_G_Hair_45");
        reveal_strlit("45");
        assert(!("45"@).contains('_')) by {
            assert forall|j: int| 0 <= j < "45"@.len() implies "45"@[j] != '_' by {}
        }
        assert("NFT_G_Hair_Long_45"@ =~= "NFT_G_Hair"@ + seq!['_'] + "Long"@ + seq!['_'] + "45"@);
        assert("NFT_G_Hair_45"@ =~= "NFT_G_Hair"@ + seq!['_'] + "45"@);
        lemma_derive_drops_token("NFT_G_Hair"@, "Long"@, "45"@);
    }
}

proof fn lemma_derive_pair_girl_mythical(i: int)
    requires
        0 <= i < spec_hair_long(Gender::Girl, Rarity::Mythical).len(),
    ensures
        spec_derive_hair(spec_hair_long(Gender::Girl, Rarity::Mythical)[i]) == spec_hair(
            Gender::Girl,
            Rarity::Mythical,
        )[i],
        split_on(spec_hair_long(Gender::Girl, Rarity::Mythical)[i], '_').len() >= 2,
{
    reveal_strlit("Long");
    reveal_strlit("NFT_G_Hair");
    assert(!("Long"@).contains('_')) by {
        assert forall|j: int| 0 <= j < "Long"@.len() implies "Long"@[j] != '_' by {}
    }
    if i == 0 {
        reveal_strlit("NFT_G_Hair_Long_44");
        reveal_strlit("NFT_G_Hair_44");
        reveal_strlit("44");
        assert(!("44"@).contains('_')) by {
            assert forall|j: int| 0 <= j < "44"@.len() implies "44"@[j] != '_' by {}
        }
        assert("NFT_G_Hair_Long_44"@ =~= "NFT_G_Hair"@ + seq!['_'] + "Long"@ + seq!['_'] + "44"@);
        assert("NFT_G_Hair_44"@ =~= "NFT_G_Hair"@ + seq!['_'] + "44"@);
        lemma_derive_drops_token("NFT_G_Hair"@, "Long"@, "44"@);
    } else if i == 1 {
        reveal_strlit("NFT_G_Hair_Long_46");
        reveal_strlit("NFT_G_Hair_46");
        reveal_strlit("46");
        assert(!("46"@).contains('_')) by {
            assert forall|j: int| 0 <= j < "46"@.len() implies "46"@[j] != '_' by {}
        }
        assert("NFT_G_Hair_Long_46"@ =~= "NFT_G_Hair"@ + seq!['_'] + "Long"@ + seq!['_'] + "46"@);
        assert("NFT_G_Hair_46"@ =~= "NFT_G_Hair"@ + seq!['_'] + "46"@);
        lemma_derive_drops_token("NFT_G_Hair"@, "Long"@, "46"@);
    }
}

/// The derivation rule round-trips over the whole catalog: the HairLong
/// and Hair lists of every (gender, rarity) cell run in parallel, and
/// deriving any catalog HairLong variant yields exactly the Hair variant
/// at the same position, a valid key of the Hair naming convention.
pub proof fn lemma_derive_hair_catalog(g: Gender, r: Rarity, i: int)
    requires
        0 <= i < spec_variants(g, TraitCategory::HairLong, r).len(),
    ensures
        spec_variants(g, TraitCategory::Hair, r).len() == spec_variants(
            g,
            TraitCategory::HairLong,
            r,
        ).len(),
        spec_derive_hair(spec_variants(g, TraitCategory::HairLong, r)[i]) == spec_variants(
            g,
            TraitCategory::Hair,
            r,
        )[i],
        split_on(spec_variants(g, TraitCategory::HairLong, r)[i], '_').len() >= 2,
{
    match (g, r) {
        (Gender::Boy, Rarity::Common) => lemma_derive_pair_boy_common(i),
        (Gender::Boy, Rarity::Uncommon) => lemma_derive_pair_boy_uncommon(i),
        (Gender::Boy, Rarity::Rare) => lemma_derive_pair_boy_rare(i),
        (Gender::Boy, Rarity::Epic) => lemma_derive_pair_boy_epic(i),
        (Gender::Boy, Rarity::Legendary) => lemma_derive_pair_boy_legendary(i),
        (Gender::Boy, Rarity::Mythical) => lemma_derive_pair_boy_mythical(i),
        (Gender::Girl, Rarity::Common) => lemma_derive_pair_girl_common(i),
        (Gender::Girl, Rarity::Uncommon) => lemma_derive_pair_girl_uncommon(i),
        (Gender::Girl, Rarity::Rare) => lemma_derive_pair_girl_rare(i),
        (Gender::Girl, Rarity::Epic) => lemma_derive_pair_girl_epic(i),
        (Gender::Girl, Rarity::Legendary) => lemma_derive_pair_girl_legendary(i),
        (Gender::Girl, Rarity::Mythical) => lemma_derive_pair_girl_mythical(i),
    }
}

} // verus!

