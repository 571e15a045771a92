//! Which catalog identifiers carry the markers the emotion pipeline keys
//! on: exactly the Clothes identifiers contain the Clothes marker, and
//! exactly the Face and FaceAcc identifiers contain the Face marker.
//! From this, the Face filter keeps every generated manifest's Clothes
//! entry and the expansion's search finds it.

use vstd::prelude::*;

use crate::catalog::{
    spec_background, spec_body, spec_clothes, spec_face, spec_face_acc, spec_hair,
    spec_hair_long, spec_hand, spec_head_phone, spec_variants,
};
use crate::emotion::{lemma_first_with_found, spec_first_with, spec_strip_face};
use crate::integrity::lemma_entries_membership;
use crate::kinds::{Gender, Rarity, TraitCategory};
use crate::manifest::{lemma_entries_concat, slot_views, spec_entries, Manifest};
use crate::sample::spec_from_catalog;
use crate::strutil::spec_has_substring;

verus! {

/// A pattern holding a character that the text lacks never occurs in it.
proof fn lemma_char_absent_no_substring(s: Seq<char>, pat: Seq<char>, ch: char)
    requires
        pat.contains(ch),
        !s.contains(ch),
    ensures
        !spec_has_substring(s, pat),
{
    if spec_has_substring(s, pat) {
        let k = choose|k: int|
            0 <= k <= s.len() - pat.len() && #[trigger] s.subrange(k, k + pat.len() as int)
                == pat;
        let j = choose|j: int| 0 <= j < pat.len() && pat[j] == ch;
        assert(s.subrange(k, k + pat.len() as int)[j] == s[k + j]);
        assert(s[k + j] == ch);
        assert(s.contains(ch));
    }
}

proof fn lemma_background_marker(r: Rarity, i: int)
    requires
        0 <= i < spec_background(r).len(),
    ensures
        !spec_has_substring(spec_background(r)[i], "Clothes"@),
        !spec_has_substring(spec_background(r)[i], "Face"@),
{
    reveal_strlit("Clothes");
    reveal_strlit("Face");
    assert("Clothes"@.contains('C')) by {
        assert("Clothes"@[0] == 'C');
    }
    assert("Face"@.contains('c')) by {
        assert("Face"@[2] == 'c');
    }
    match r {
        Rarity::Common => {
            if i == 0 {
                reveal_strlit("NFT_BG_1");
                assert(!("NFT_BG_1"@).contains('C')) by {
                    assert forall|q: int| 0 <= q < "NFT_BG_1"@.len() implies "NFT_BG_1"@[q] != 'C' by {}
                }
                assert(!("NFT_BG_1"@).contains('c')) by {
                    assert forall|q: int| 0 <= q < "NFT_BG_1"@.len() implies "NFT_BG_1"@[q] != 'c' by {}
                }
                lemma_char_absent_no_substring("NFT_BG_1"@, "Clothes"@, 'C');
                lemma_char_absent_no_substring("NFT_BG_1"@, "Face"@, 'c');
            } else if i == 1 {
                reveal_strlit("NFT_BG_2");
                assert(!("NFT_BG_2"@).contains('C')) by {
                    assert forall|q: int| 0 <= q < "NFT_BG_2"@.len() implies "NFT_BG_2"@[q] != 'C' by {}
                }
                assert(!("NFT_BG_2"@).contains('c')) by {
                    assert forall|q: int| 0 <= q < "NFT_BG_2"@.len() implies "NFT_BG_2"@[q] != 'c' by {}
                }
                lemma_char_absent_no_substring("NFT_BG_2"@, "Clothes"@, 'C');
                lemma_char_absent_no_substring("NFT_BG_2"@, "Face"@, 'c');
            } else if i == 2 {
                reveal_strlit("NFT_BG_3");
                assert(!("NFT_BG_3"@).contains('C')) by {
                    assert forall|q: int| 0 <= q < "NFT_BG_3"@.len() implies "NFT_BG_3"@[q] != 'C' by {}
                }
                assert(!("NFT_BG_3"@).contains('c')) by {
                    assert forall|q: int| 0 <= q < "NFT_BG_3"@.len() implies "NFT_BG_3"@[q] != 'c' by {}
                }
                lemma_char_absent_no_substring("NFT_BG_3"@, "Clothes"@, 'C');
                lemma_char_absent_no_substring("NFT_BG_3"@, "Face"@, 'c');
            } else if i == 3 {
                reveal_strlit("NFT_BG_4");
                assert(!("NFT_BG_4"@).contains('C')) by {
                    assert forall|q: int| 0 <= q < "NFT_BG_4"@.len() implies "NFT_BG_4"@[q] != 'C' by {}
                }
                assert(!("NFT_BG_4"@).contains('c')) by {
                    assert forall|q: int| 0 <= q < "NFT_BG_4"@.len() implies "NFT_BG_4"@[q] != 'c' by {}
                }
                lemma_char_absent_no_substring("NFT_BG_4"@, "Clothes"@, 'C');
                lemma_char_absent_no_substring("NFT_BG_4"@, "Face"@, 'c');
            }
        },
        Rarity::Uncommon => {
        },
        Rarity::Rare => {
            if i == 0 {
                reveal_strlit("NFT_BG_5");
                assert(!("NFT_BG_5"@).contains('C')) by {
                    assert forall|q: int| 0 <= q < "NFT_BG_5"@.len() implies "NFT_BG_5"@[q] != 'C' by {}
                }
                assert(!("NFT_BG_5"@).contains('c')) by {
                    assert forall|q: int| 0 <= q < "NFT_BG_5"@.len() implies "NFT_BG_5"@[q] != 'c' by {}
                }
                lemma_char_absent_no_substring("NFT_BG_5"@, "Clothes"@, 'C');
                lemma_char_absent_no_substring("NFT_BG_5"@, "Face"@, 'c');
            } else if i == 1 {
                reveal_strlit("NFT_BG_6");
                assert(!("NFT_BG_6"@).contains('C')) by {
                    assert forall|q: int| 0 <= q < "NFT_BG_6"@.len() implies "NFT_BG_6"@[q] != 'C' by {}
                }
                assert(!("NFT_BG_6"@).contains('c')) by {
                    assert forall|q: int| 0 <= q < "NFT_BG_6"@.len() implies "NFT_BG_6"@[q] != 'c' by {}
                }
                lemma_char_absent_no_substring("NFT_BG_6"@, "Clothes"@, 'C');
                lemma_char_absent_no_substring("NFT_BG_6"@, "Face"@, 'c');
            }
        },
        Rarity::Epic => {
            if i == 0 {
                reveal_strlit("NFT_BG_7");
                assert(!("NFT_BG_7"@).contains('C')) by {
                    assert forall|q: int| 0 <= q < "NFT_BG_7"@.len() implies "NFT_BG_7"@[q] != 'C' by {}
                }
                assert(!("NFT_BG_7"@).contains('c')) by {
                    assert forall|q: int| 0 <= q < "NFT_BG_7"@.len() implies "NFT_BG_7"@[q] != 'c' by {}
                }
                lemma_char_absent_no_substring("NFT_BG_7"@, "Clothes"@, 'C');
                lemma_char_absent_no_substring("NFT_BG_7"@, "Face"@, 'c');
            } else if i == 1 {
                reveal_strlit("NFT_BG_9");
                assert(!("NFT_BG_9"@).contains('C')) by {
                    assert forall|q: int| 0 <= q < "NFT_BG_9"@.len() implies "NFT_BG_9"@[q] != 'C' by {}
                }
                assert(!("NFT_BG_9"@).contains('c')) by {
                    assert forall|q: int| 0 <= q < "NFT_BG_9"@.len() implies "NFT_BG_9"@[q] != 'c' by {}
                }
                lemma_char_absent_no_substring("NFT_BG_9"@, "Clothes"@, 'C');
                lemma_char_absent_no_substring("NFT_BG_9"@, "Face"@, 'c');
            } else if i == 2 {
                reveal_strlit("NFT_BG_10");
                assert(!("NFT_BG_10"@).contains('C')) by {
                    assert forall|q: int| 0 <= q < "NFT_BG_10"@.len() implies "NFT_BG_10"@[q] != 'C' by {}
                }
                assert(!("NFT_BG_10"@).contains('c')) by {
                    assert forall|q: int| 0 <= q < "NFT_BG_10"@.len() implies "NFT_BG_10"@[q] != 'c' by {}
                }
                lemma_char_absent_no_substring("NFT_BG_10"@, "Clothes"@, 'C');
                lemma_char_absent_no_substring("NFT_BG_10"@, "Face"@, 'c');
            }
        },
        Rarity::Legendary => {
            if i == 0 {
                reveal_strlit("NFT_BG_12");
                assert(!("NFT_BG_12"@).contains('C')) by {
                    assert forall|q: int| 0 <= q < "NFT_BG_12"@.len() implies "NFT_BG_12"@[q] != 'C' by {}
                }
                assert(!("NFT_BG_12"@).contains('c')) by {
                    assert forall|q: int| 0 <= q < "NFT_BG_12"@.len() implies "NFT_BG_12"@[q] != 'c' by {}
                }
                lemma_char_absent_no_substring("NFT_BG_12"@, "Clothes"@, 'C');
                lemma_char_absent_no_substring("NFT_BG_12"@, "Face"@, 'c');
            }
        },
        Rarity::Mythical => {
            if i == 0 {
                reveal_strlit("NFT_BG_8");
                assert(!("NFT_BG_8"@).contains('C')) by {
                    assert forall|q: int| 0 <= q < "NFT_BG_8"@.len() implies "NFT_BG_8"@[q] != 'C' by {}
                }
                assert(!("NFT_BG_8"@).contains('c')) by {
                    assert forall|q: int| 0 <= q < "NFT_BG_8"@.len() implies "NFT_BG_8"@[q] != 'c' by {}
                }
                lemma_char_absent_no_substring("NFT_BG_8"@, "Clothes"@, 'C');
                lemma_char_absent_no_substring("NFT_BG_8"@, "Face"@, 'c');
            } else if i == 1 {
                reveal_strlit("NFT_BG_11");
                assert(!("NFT_BG_11"@).contains('C')) by {
                    assert forall|q: int| 0 <= q < "NFT_BG_11"@.len() implies "NFT_BG_11"@[q] != 'C' by {}
                }
                assert(!("NFT_BG_11"@).contains('c')) by {
                    assert forall|q: int| 0 <= q < "NFT_BG_11"@.len() implies "NFT_BG_11"@[q] != 'c' by {}
                }
                lemma_char_absent_no_substring("NFT_BG_11"@, "Clothes"@, 'C');
                lemma_char_absent_no_substring("NFT_BG_11"@, "Face"@, 'c');
            }
        },
    }
}

proof fn lemma_hand_marker(r: Rarity, i: int)
    requires
        0 <= i < spec_hand(r).len(),
    ensures
        !spec_has_substring(spec_hand(r)[i], "Clothes"@),
        !spec_has_substring(spec_hand(r)[i], "Face"@),
{
    reveal_strlit("Clothes");
    reveal_strlit("Face");
    assert("Clothes"@.contains('C')) by {
        assert("Clothes"@[0] == 'C');
    }
    assert("Face"@.contains('c')) by {
        assert("Face"@[2] == 'c');
    }
    match r {
        Rarity::Common => {
            if i == 0 {
                reveal_strlit("NFT_Hand_1");
                assert(!("NFT_Hand_1"@).contains('C')) by {
                    assert forall|q: int| 0 <= q < "NFT_Hand_1"@.len() implies "NFT_Hand_1"@[q] != 'C' by {}
                }
                assert(!("NFT_Hand_1"@).contains('c')) by {
                    assert forall|q: int| 0 <= q < "NFT_Hand_1"@.len() implies "NFT_Hand_1"@[q] != 'c' by {}
                }
                lemma_char_absent_no_substring("NFT_Hand_1"@, "Clothes"@, 'C');
                lemma_char_absent_no_substring("NFT_Hand_1"@, "Face"@, 'c');
            } else if i == 1 {
                reveal_strlit("NFT_Hand_2");
                assert(!("NFT_Hand_2"@).contains('C')) by {
                    assert forall|q: int| 0 <= q < "NFT_Hand_2"@.len() implies "NFT_Hand_2"@[q] != 'C' by {}
                }
                assert(!("NFT_Hand_2"@).contains('c')) by {
                    assert forall|q: int| 0 <= q < "NFT_Hand_2"@.len() implies "NFT_Hand_2"@[q] != 'c' by {}
                }
                lemma_char_absent_no_substring("NFT_Hand_2"@, "Clothes"@, 'C');
                lemma_char_absent_no_substring("NFT_Hand_2"@, "Face"@, 'c');
            }
        },
        Rarity::Uncommon => {
            if i == 0 {
                reveal_strlit("NFT_Hand_3");
                assert(!("NFT_Hand_3"@).contains('C')) by {
                    assert forall|q: int| 0 <= q < "NFT_Hand_3"@.len() implies "NFT_Hand_3"@[q] != 'C' by {}
                }
                assert(!("NFT_Hand_3"@).contains('c')) by {
                    assert forall|q: int| 0 <= q < "NFT_Hand_3"@.len() implies "NFT_Hand_3"@[q] != 'c' by {}
                }
                lemma_char_absent_no_substring("NFT_Hand_3"@, "Clothes"@, 'C');
                lemma_char_absent_no_substring("NFT_Hand_3"@, "Face"@, 'c');
            } else if i == 1 {
                reveal_strlit("NFT_Hand_4");
                assert(!("NFT_Hand_4"@).contains('C')) by {
                    assert forall|q: int| 0 <= q < "NFT_Hand_4"@.len() implies "NFT_Hand_4"@[q] != 'C' by {}
                }
                assert(!("NFT_Hand_4"@).contains('c')) by {
                    assert forall|q: int| 0 <= q < "NFT_Hand_4"@.len() implies "NFT_Hand_4"@[q] != 'c' by {}
                }
                lemma_char_absent_no_substring("NFT_Hand_4"@, "Clothes"@, 'C');
                lemma_char_absent_no_substring("NFT_Hand_4"@, "Face"@, 'c');
            }
        },
        Rarity::Rare => {
            if i == 0 {
                reveal_strlit("NFT_Hand_5");
                assert(!("NFT_Hand_5"@).contains('C')) by {
                    assert forall|q: int| 0 <= q < "NFT_Hand_5"@.len() implies "NFT_Hand_5"@[q] != 'C' by {}
                }
                assert(!("NFT_Hand_5"@).contains('c')) by {
                    assert forall|q: int| 0 <= q < "NFT_Hand_5"@.len() implies "NFT_Hand_5"@[q] != 'c' by {}
                }
                lemma_char_absent_no_substring("NFT_Hand_5"@, "Clothes"@, 'C');
                lemma_char_absent_no_substring("NFT_Hand_5"@, "Face"@, 'c');
            } else if i == 1 {
                reveal_strlit("NFT_Hand_6");
                assert(!("NFT_Hand_6"@).contains('C')) by {
                    assert forall|q: int| 0 <= q < "NFT_Hand_6"@.len() implies "NFT_Hand_6"@[q] != 'C' by {}
                }
                assert(!("NFT_Hand_6"@).contains('c')) by {
                    assert forall|q: int| 0 <= q < "NFT_Hand_6"@.len() implies "NFT_Hand_6"@[q] != 'c' by {}
                }
                lemma_char_absent_no_substring("NFT_Hand_6"@, "Clothes"@, 'C');
                lemma_char_absent_no_substring("NFT_Hand_6"@, "Face"@, 'c');
            }
        },
        Rarity::Epic => {
            if i == 0 {
                reveal_strlit("NFT_Hand_7");
                assert(!("NFT_Hand_7"@).contains('C')) by {
                    assert forall|q: int| 0 <= q < "NFT_Hand_7"@.len() implies "NFT_Hand_7"@[q] != 'C' by {}
                }
                assert(!("NFT_Hand_7"@).contains('c')) by {
                    assert forall|q: int| 0 <= q < "NFT_Hand_7"@.len() implies "NFT_Hand_7"@[q] != 'c' by {}
                }
                lemma_char_absent_no_substring("NFT_Hand_7"@, "Clothes"@, 'C');
                lemma_char_absent_no_substring("NFT_Hand_7"@, "Face"@, 'c');
            } else if i == 1 {
                reveal_strlit("NFT_Hand_8");
                assert(!("NFT_Hand_8"@).contains('C')) by {
                    assert forall|q: int| 0 <= q < "NFT_Hand_8"@.len() implies "NFT_Hand_8"@[q] != 'C' by {}
                }
                assert(!("NFT_Hand_8"@).contains('c')) by {
                    assert forall|q: int| 0 <= q < "NFT_Hand_8"@.len() implies "NFT_Hand_8"@[q] != 'c' by {}
                }
                lemma_char_absent_no_substring("NFT_Hand_8"@, "Clothes"@, 'C');
                lemma_char_absent_no_substring("NFT_Hand_8"@, "Face"@, 'c');
            }
        },
        Rarity::Legendary => {
            if i == 0 {
                reveal_strlit("NFT_Hand_9");
                assert(!("NFT_Hand_9"@).contains('C')) by {
                    assert forall|q: int| 0 <= q < "NFT_Hand_9"@.len() implies "NFT_Hand_9"@[q] != 'C' by {}
                }
                assert(!("NFT_Hand_9"@).contains('c')) by {
                    assert forall|q: int| 0 <= q < "NFT_Hand_9"@.len() implies "NFT_Hand_9"@[q] != 'c' by {}
                }
                lemma_char_absent_no_substring("NFT_Hand_9"@, "Clothes"@, 'C');
                lemma_char_absent_no_substring("NFT_Hand_9"@, "Face"@, 'c');
            } else if i == 1 {
                reveal_strlit("NFT_Hand_10");
                assert(!("NFT_Hand_10"@).contains('C')) by {
                    assert forall|q: int| 0 <= q < "NFT_Hand_10"@.len() implies "NFT_Hand_10"@[q] != 'C' by {}
                }
                assert(!("NFT_Hand_10"@).contains('c')) by {
                    assert forall|q: int| 0 <= q < "NFT_Hand_10"@.len() implies "NFT_Hand_10"@[q] != 'c' by {}
                }
                lemma_char_absent_no_substring("NFT_Hand_10"@, "Clothes"@, 'C');
                lemma_char_absent_no_substring("NFT_Hand_10"@, "Face"@, 'c');
            } else if i == 2 {
                reveal_strlit("NFT_Hand_11");
                assert(!("NFT_Hand_11"@).contains('C')) by {
                    assert forall|q: int| 0 <= q < "NFT_Hand_11"@.len() implies "NFT_Hand_11"@[q] != 'C' by {}
                }
                assert(!("NFT_Hand_11"@).contains('c')) by {
                    assert forall|q: int| 0 <= q < "NFT_Hand_11"@.len() implies "NFT_Hand_11"@[q] != 'c' by {}
                }
                lemma_char_absent_no_substring("NFT_Hand_11"@, "Clothes"@, 'C');
                lemma_char_absent_no_substring("NFT_Hand_11"@, "Face"@, 'c');
            }
        },
        Rarity::Mythical => {
            if i == 0 {
                reveal_strlit("NFT_Hand_12");
                assert(!("NFT_Hand_12"@).contains('C')) by {
                    assert forall|q: int| 0 <= q < "NFT_Hand_12"@.len() implies "NFT_Hand_12"@[q] != 'C' by {}
                }
                assert(!("NFT_Hand_12"@).contains('c')) by {
                    assert forall|q: int| 0 <= q < "NFT_Hand_12"@.len() implies "NFT_Hand_12"@[q] != 'c' by {}
                }
                lemma_char_absent_no_substring("NFT_Hand_12"@, "Clothes"@, 'C');
                lemma_char_absent_no_substring("NFT_Hand_12"@, "Face"@, 'c');
            } else if i == 1 {
                reveal_strlit("NFT_Hand_13");
                assert(!("NFT_Hand_13"@).contains('C')) by {
                    assert forall|q: int| 0 <= q < "NFT_Hand_13"@.len() implies "NFT_Hand_13"@[q] != 'C' by {}
                }
                assert(!("NFT_Hand_13"@).contains('c')) by {
                    assert forall|q: int| 0 <= q < "NFT_Hand_13"@.len() implies "NFT_Hand_13"@[q] != 'c' by {}
                }
                lemma_char_absent_no_substring("NFT_Hand_13"@, "Clothes"@, 'C');
                lemma_char_absent_no_substring("NFT_Hand_13"@, "Face"@, 'c');
            }
        },
    }
}

proof fn lemma_hair_long_marker(g: Gender, r: Rarity, i: int)
    requires
        0 <= i < spec_hair_long(g, r).len(),
    ensures
        !spec_has_substring(spec_hair_long(g, r)[i], "Clothes"@),
        !spec_has_substring(spec_hair_long(g, r)[i], "Face"@),
{
    reveal_strlit("Clothes");
    reveal_strlit("Face");
    assert("Clothes"@.contains('C')) by {
        assert("Clothes"@[0] == 'C');
    }
    assert("Face"@.contains('c')) by {
        assert("Face"@[2] == 'c');
    }
    match g {
        Gender::Boy => match r {
            Rarity::Common => {
                if i == 0 {
                    reveal_strlit("NFT_B_Hair_Long_11");
                    assert(!("NFT_B_Hair_Long_11"@).contains('C')) by {
                        assert forall|q: int| 0 <= q < "NFT_B_Hair_Long_11"@.len() implies "NFT_B_Hair_Long_11"@[q] != 'C' by {}
                    }
                    assert(!("NFT_B_Hair_Long_11"@).contains('c')) by {
                        assert forall|q: int| 0 <= q < "NFT_B_Hair_Long_11"@.len() implies "NFT_B_Hair_Long_11"@[q] != 'c' by {}
                    }
                    lemma_char_absent_no_substring("NFT_B_Hair_Long_11"@, "Clothes"@, 'C');
                    lemma_char_absent_no_substring("NFT_B_Hair_Long_11"@, "Face"@, 'c');
                } else if i == 1 {
                    reveal_strlit("NFT_B_Hair_Long_12");
                    assert(!("NFT_B_Hair_Long_12"@).contains('C')) by {
                        assert forall|q: int| 0 <= q < "NFT_B_Hair_Long_12"@.len() implies "NFT_B_Hair_Long_12"@[q] != 'C' by {}
                    }
                    assert(!("NFT_B_Hair_Long_12"@).contains('c')) by {
                        assert forall|q: int| 0 <= q < "NFT_B_Hair_Long_12"@.len() implies "NFT_B_Hair_Long_12"@[q] != 'c' by {}
                    }
                    lemma_char_absent_no_substring("NFT_B_Hair_Long_12"@, "Clothes"@, 'C');
                    lemma_char_absent_no_substring("NFT_B_Hair_Long_12"@, "Face"@, 'c');
                } else if i == 2 {
                    reveal_strlit("NFT_B_Hair_Long_13");
                    assert(!("NFT_B_Hair_Long_13"@).contains('C')) by {
                        assert forall|q: int| 0 <= q < "NFT_B_Hair_Long_13"@.len() implies "NFT_B_Hair_Long_13"@[q] != 'C' by {}
                    }
                    assert(!("NFT_B_Hair_Long_13"@).contains('c')) by {
                        assert forall|q: int| 0 <= q < "NFT_B_Hair_Long_13"@.len() implies "NFT_B_Hair_Long_13"@[q] != 'c' by {}
                    }
                    lemma_char_absent_no_substring("NFT_B_Hair_Long_13"@, "Clothes"@, 'C');
                    lemma_char_absent_no_substring("NFT_B_Hair_Long_13"@, "Face"@, 'c');
                } else if i == 3 {
                    reveal_strlit("NFT_B_Hair_Long_14");
                    assert(!("NFT_B_Hair_Long_14"@).contains('C')) by {
                        assert forall|q: int| 0 <= q < "NFT_B_Hair_Long_14"@.len() implies "NFT_B_Hair_Long_14"@[q] != 'C' by {}
                    }
                    assert(!("NFT_B_Hair_Long_14"@).contains('c')) by {
                        assert forall|q: int| 0 <= q < "NFT_B_Hair_Long_14"@.len() implies "NFT_B_Hair_Long_14"@[q] != 'c' by {}
                    }
                    lemma_char_absent_no_substring("NFT_B_Hair_Long_14"@, "Clothes"@, 'C');
                    lemma_char_absent_no_substring("NFT_B_Hair_Long_14"@, "Face"@, 'c');
                } else if i == 4 {
                    reveal_strlit("NFT_B_Hair_Long_15");
                    assert(!("NFT_B_Hair_Long_15"@).contains('C')) by {
                        assert forall|q: int| 0 <= q < "NFT_B_Hair_Long_15"@.len() implies "NFT_B_Hair_Long_15"@[q] != 'C' by {}
                    }
                    assert(!("NFT_B_Hair_Long_15"@).contains('c')) by {
                        assert forall|q: int| 0 <= q < "NFT_B_Hair_Long_15"@.len() implies "NFT_B_Hair_Long_15"@[q] != 'c' by {}
                    }
                    lemma_char_absent_no_substring("NFT_B_Hair_Long_15"@, "Clothes"@, 'C');
                    lemma_char_absent_no_substring("NFT_B_Hair_Long_15"@, "Face"@, 'c');
                } else if i == 5 {
                    reveal_strlit("NFT_B_Hair_Long_16");
                    assert(!("NFT_B_Hair_Long_16"@).contains('C')) by {
                        assert forall|q: int| 0 <= q < "NFT_B_Hair_Long_16"@.len() implies "NFT_B_Hair_Long_16"@[q] != 'C' by {}
                    }
                    assert(!("NFT_B_Hair_Long_16"@).contains('c')) by {
                        assert forall|q: int| 0 <= q < "NFT_B_Hair_Long_16"@.len() implies "NFT_B_Hair_Long_16"@[q] != 'c' by {}
                    }
                    lemma_char_absent_no_substring("NFT_B_Hair_Long_16"@, "Clothes"@, 'C');
                    lemma_char_absent_no_substring("NFT_B_Hair_Long_16"@, "Face"@, 'c');
                } else if i == 6 {
                    reveal_strlit("NFT_B_Hair_Long_17");
                    assert(!("NFT_B_Hair_Long_17"@).contains('C')) by {
                        assert forall|q: int| 0 <= q < "NFT_B_Hair_Long_17"@.len() implies "NFT_B_Hair_Long_17"@[q] != 'C' by {}
                    }
                    assert(!("NFT_B_Hair_Long_17"@).contains('c')) by {
                        assert forall|q: int| 0 <= q < "NFT_B_Hair_Long_17"@.len() implies "NFT_B_Hair_Long_17"@[q] != 'c' by {}
                    }
                    lemma_char_absent_no_substring("NFT_B_Hair_Long_17"@, "Clothes"@, 'C');
                    lemma_char_absent_no_substring("NFT_B_Hair_Long_17"@, "Face"@, 'c');
                } else if i == 7 {
                    reveal_strlit("NFT_B_Hair_Long_18");
                    assert(!("NFT_B_Hair_Long_18"@).contains('C')) by {
                        assert forall|q: int| 0 <= q < "NFT_B_Hair_Long_18"@.len() implies "NFT_B_Hair_Long_18"@[q] != 'C' by {}
                    }
                    assert(!("NFT_B_Hair_Long_18"@).contains('c')) by {
                        assert forall|q: int| 0 <= q < "NFT_B_Hair_Long_18"@.len() implies "NFT_B_Hair_Long_18"@[q] != 'c' by {}
                    }
                    lemma_char_absent_no_substring("NFT_B_Hair_Long_18"@, "Clothes"@, 'C');
                    lemma_char_absent_no_substring("NFT_B_Hair_Long_18"@, "Face"@, 'c');
                } else if i == 8 {
                    reveal_strlit("NFT_B_Hair_Long_19");
                    assert(!("NFT_B_Hair_Long_19"@).contains('C')) by {
                        assert forall|q: int| 0 <= q < "NFT_B_Hair_Long_19"@.len() implies "NFT_B_Hair_Long_19"@[q] != 'C' by {}
                    }
                    assert(!("NFT_B_Hair_Long_19"@).contains('c')) by {
                        assert forall|q: int| 0 <= q < "NFT_B_Hair_Long_19"@.len() implies "NFT_B_Hair_Long_19"@[q] != 'c' by {}
                    }
                    lemma_char_absent_no_substring("NFT_B_Hair_Long_19"@, "Clothes"@, 'C');
                    lemma_char_absent_no_substring("NFT_B_Hair_Long_19"@, "Face"@, 'c');
                } else if i == 9 {
                    reveal_strlit("NFT_B_Hair_Long_20");
                    assert(!("NFT_B_Hair_Long_20"@).contains('C')) by {
                        assert forall|q: int| 0 <= q < "NFT_B_Hair_Long_20"@.len() implies "NFT_B_Hair_Long_20"@[q] != 'C' by {}
                    }
                    assert(!("NFT_B_Hair_Long_20"@).contains('c')) by {
                        assert forall|q: int| 0 <= q < "NFT_B_Hair_Long_20"@.len() implies "NFT_B_Hair_Long_20"@[q] != 'c' by {}
                    }
                    lemma_char_absent_no_substring("NFT_B_Hair_Long_20"@, "Clothes"@, 'C');
                    lemma_char_absent_no_substring("NFT_B_Hair_Long_20"@, "Face"@, 'c');
                } else if i == 10 {
                    reveal_strlit("NFT_B_Hair_Long_21");
                    assert(!("NFT_B_Hair_Long_21"@).contains('C')) by {
                        assert forall|q: int| 0 <= q < "NFT_B_Hair_Long_21"@.len() implies "NFT_B_Hair_Long_21"@[q] != 'C' by {}
                    }
                    assert(!("NFT_B_Hair_Long_21"@).contains('c')) by {
                        assert forall|q: int| 0 <= q < "NFT_B_Hair_Long_21"@.len() implies "NFT_B_Hair_Long_21"@[q] != 'c' by {}
                    }
                    lemma_char_absent_no_substring("NFT_B_Hair_Long_21"@, "Clothes"@, 'C');
                    lemma_char_absent_no_substring("NFT_B_Hair_Long_21"@, "Face"@, 'c');
                } else if i == 11 {
                    reveal_strlit("NFT_B_Hair_Long_22");
                    assert(!("NFT_B_Hair_Long_22"@).contains('C')) by {
                        assert forall|q: int| 0 <= q < "NFT_B_Hair_Long_22"@.len() implies "NFT_B_Hair_Long_22"@[q] != 'C' by {}
                    }
                    assert(!("NFT_B_Hair_Long_22"@).contains('c')) by {
                        assert forall|q: int| 0 <= q < "NFT_B_Hair_Long_22"@.len() implies "NFT_B_Hair_Long_22"@[q] != 'c' by {}
                    }
                    lemma_char_absent_no_substring("NFT_B_Hair_Long_22"@, "Clothes"@, 'C');
                    lemma_char_absent_no_substring("NFT_B_Hair_Long_22"@, "Face"@, 'c');
                } else if i == 12 {
                    reveal_strlit("NFT_B_Hair_Long_23");
                    assert(!("NFT_B_Hair_Long_23"@).contains('C')) by {
                        assert forall|q: int| 0 <= q < "NFT_B_Hair_Long_23"@.len() implies "NFT_B_Hair_Long_23"@[q] != 'C' by {}
                    }
                    assert(!("NFT_B_Hair_Long_23"@).contains('c')) by {
                        assert forall|q: int| 0 <= q < "NFT_B_Hair_Long_23"@.len() implies "NFT_B_Hair_Long_23"@[q] != 'c' by {}
                    }
                    lemma_char_absent_no_substring("NFT_B_Hair_Long_23"@, "Clothes"@, 'C');
                    lemma_char_absent_no_substring("NFT_B_Hair_Long_23"@, "Face"@, 'c');
                } else if i == 13 {
                    reveal_strlit("NFT_B_Hair_Long_24");
                    assert(!("NFT_B_Hair_Long_24"@).contains('C')) by {
                        assert forall|q: int| 0 <= q < "NFT_B_Hair_Long_24"@.len() implies "NFT_B_Hair_Long_24"@[q] != 'C' by {}
                    }
                    assert(!("NFT_B_Hair_Long_24"@).contains('c')) by {
                        assert forall|q: int| 0 <= q < "NFT_B_Hair_Long_24"@.len() implies "NFT_B_Hair_Long_24"@[q] != 'c' by {}
                    }
                    lemma_char_absent_no_substring("NFT_B_Hair_Long_24"@, "Clothes"@, 'C');
                    lemma_char_absent_no_substring("NFT_B_Hair_Long_24"@, "Face"@, 'c');
                } else if i == 14 {
                    reveal_strlit("NFT_B_Hair_Long_25");
                    assert(!("NFT_B_Hair_Long_25"@).contains('C')) by {
                        assert forall|q: int| 0 <= q < "NFT_B_Hair_Long_25"@.len() implies "NFT_B_Hair_Long_25"@[q] != 'C' by {}
                    }
                    assert(!("NFT_B_Hair_Long_25"@).contains('c')) by {
                        assert forall|q: int| 0 <= q < "NFT_B_Hair_Long_25"@.len() implies "NFT_B_Hair_Long_25"@[q] != 'c' by {}
                    }
                    lemma_char_absent_no_substring("NFT_B_Hair_Long_25"@, "Clothes"@, 'C');
                    lemma_char_absent_no_substring("NFT_B_Hair_Long_25"@, "Face"@, 'c');
                } else if i == 15 {
                    reveal_strlit("NFT_B_Hair_Long_26");
                    assert(!("NFT_B_Hair_Long_26"@).contains('C')) by {
                        assert forall|q: int| 0 <= q < "NFT_B_Hair_Long_26"@.len() implies "NFT_B_Hair_Long_26"@[q] != 'C' by {}
                    }
                    assert(!("NFT_B_Hair_Long_26"@).contains('c')) by {
                        assert forall|q: int| 0 <= q < "NFT_B_Hair_Long_26"@.len() implies "NFT_B_Hair_Long_26"@[q] != 'c' by {}
                    }
                    lemma_char_absent_no_substring("NFT_B_Hair_Long_26"@, "Clothes"@, 'C');
                    lemma_char_absent_no_substring("NFT_B_Hair_Long_26"@, "Face"@, 'c');
                } else if i == 16 {
                    reveal_strlit("NFT_B_Hair_Long_27");
                    assert(!("NFT_B_Hair_Long_27"@).contains('C')) by {
                        assert forall|q: int| 0 <= q < "NFT_B_Hair_Long_27"@.len() implies "NFT_B_Hair_Long_27"@[q] != 'C' by {}
                    }
                    assert(!("NFT_B_Hair_Long_27"@).contains('c')) by {
                        assert forall|q: int| 0 <= q < "NFT_B_Hair_Long_27"@.len() implies "NFT_B_Hair_Long_27"@[q] != 'c' by {}
                    }
                    lemma_char_absent_no_substring("NFT_B_Hair_Long_27"@, "Clothes"@, 'C');
                    lemma_char_absent_no_substring("NFT_B_Hair_Long_27"@, "Face"@, 'c');
                } else if i == 17 {
                    reveal_strlit("NFT_B_Hair_Long_28");
                    assert(!("NFT_B_Hair_Long_28"@).contains('C')) by {
                        assert forall|q: int| 0 <= q < "NFT_B_Hair_Long_28"@.len() implies "NFT_B_Hair_Long_28"@[q] != 'C' by {}
                    }
                    assert(!("NFT_B_Hair_Long_28"@).contains('c')) by {
                        assert forall|q: int| 0 <= q < "NFT_B_Hair_Long_28"@.len() implies "NFT_B_Hair_Long_28"@[q] != 'c' by {}
                    }
                    lemma_char_absent_no_substring("NFT_B_Hair_Long_28"@, "Clothes"@, 'C');
                    lemma_char_absent_no_substring("NFT_B_Hair_Long_28"@, "Face"@, 'c');
                } else if i == 18 {
                    reveal_strlit("NFT_B_Hair_Long_29");
                    assert(!("NFT_B_Hair_Long_29"@).contains('C')) by {
                        assert forall|q: int| 0 <= q < "NFT_B_Hair_Long_29"@.len() implies "NFT_B_Hair_Long_29"@[q] != 'C' by {}
                    }
                    assert(!("NFT_B_Hair_Long_29"@).contains('c')) by {
                        assert forall|q: int| 0 <= q < "NFT_B_Hair_Long_29"@.len() implies "NFT_B_Hair_Long_29"@[q] != 'c' by {}
                    }
                    lemma_char_absent_no_substring("NFT_B_Hair_Long_29"@, "Clothes"@, 'C');
                    lemma_char_absent_no_substring("NFT_B_Hair_Long_29"@, "Face"@, 'c');
                } else if i == 19 {
                    reveal_strlit("NFT_B_Hair_Long_30");
                    assert(!("NFT_B_Hair_Long_30"@).contains('C')) by {
                        assert forall|q: int| 0 <= q < "NFT_B_Hair_Long_30"@.len() implies "NFT_B_Hair_Long_30"@[q] != 'C' by {}
                    }
                    assert(!("NFT_B_Hair_Long_30"@).contains('c')) by {
                        assert forall|q: int| 0 <= q < "NFT_B_Hair_Long_30"@.len() implies "NFT_B_Hair_Long_30"@[q] != 'c' by {}
                    }
                    lemma_char_absent_no_substring("NFT_B_Hair_Long_30"@, "Clothes"@, 'C');
                    lemma_char_absent_no_substring("NFT_B_Hair_Long_30"@, "Face"@, 'c');
                } else if i == 20 {
                    reveal_strlit("NFT_B_Hair_Long_31");
                    assert(!("NFT_B_Hair_Long_31"@).contains('C')) by {
                        assert forall|q: int| 0 <= q < "NFT_B_Hair_Long_31"@.len() implies "NFT_B_Hair_Long_31"@[q] != 'C' by {}
                    }
                    assert(!("NFT_B_Hair_Long_31"@).contains('c')) by {
                        assert forall|q: int| 0 <= q < "NFT_B_Hair_Long_31"@.len() implies "NFT_B_Hair_Long_31"@[q] != 'c' by {}
                    }
                    lemma_char_absent_no_substring("NFT_B_Hair_Long_31"@, "Clothes"@, 'C');
                    lemma_char_absent_no_substring("NFT_B_Hair_Long_31"@, "Face"@, 'c');
                }
            },
            Rarity::Uncommon => {
                if i == 0 {
                    reveal_strlit("NFT_B_Hair_Long_2");
                    assert(!("NFT_B_Hair_Long_2"@).contains('C')) by {
                        assert forall|q: int| 0 <= q < "NFT_B_Hair_Long_2"@.len() implies "NFT_B_Hair_Long_2"@[q] != 'C' by {}
                    }
                    assert(!("NFT_B_Hair_Long_2"@).contains('c')) by {
                        assert forall|q: int| 0 <= q < "NFT_B_Hair_Long_2"@.len() implies "NFT_B_Hair_Long_2"@[q] != 'c' by {}
                    }
                    lemma_char_absent_no_substring("NFT_B_Hair_Long_2"@, "Clothes"@, 'C');
                    lemma_char_absent_no_substring("NFT_B_Hair_Long_2"@, "Face"@, 'c');
                } else if i == 1 {
                    reveal_strlit("NFT_B_Hair_Long_3");
                    assert(!("NFT_B_Hair_Long_3"@).contains('C')) by {
                        assert forall|q: int| 0 <= q < "NFT_B_Hair_Long_3"@.len() implies "NFT_B_Hair_Long_3"@[q] != 'C' by {}
                    }
                    assert(!("NFT_B_Hair_Long_3"@).contains('c')) by {
                        assert forall|q: int| 0 <= q < "NFT_B_Hair_Long_3"@.len() implies "NFT_B_Hair_Long_3"@[q] != 'c' by {}
                    }
                    lemma_char_absent_no_substring("NFT_B_Hair_Long_3"@, "Clothes"@, 'C');
                    lemma_char_absent_no_substring("NFT_B_Hair_Long_3"@, "Face"@, 'c');
                } else if i == 2 {
                    reveal_strlit("NFT_B_Hair_Long_4");
                    assert(!("NFT_B_Hair_Long_4"@).contains('C')) by {
                        assert forall|q: int| 0 <= q < "NFT_B_Hair_Long_4"@.len() implies "NFT_B_Hair_Long_4"@[q] != 'C' by {}
                    }
                    assert(!("NFT_B_Hair_Long_4"@).contains('c')) by {
                        assert forall|q: int| 0 <= q < "NFT_B_Hair_Long_4"@.len() implies "NFT_B_Hair_Long_4"@[q] != 'c' by {}
                    }
                    lemma_char_absent_no_substring("NFT_B_Hair_Long_4"@, "Clothes"@, 'C');
                    lemma_char_absent_no_substring("NFT_B_Hair_Long_4"@, "Face"@, 'c');
                } else if i == 3 {
                    reveal_strlit("NFT_B_Hair_Long_7");
                    assert(!("NFT_B_Hair_Long_7"@).contains('C')) by {
                        assert forall|q: int| 0 <= q < "NFT_B_Hair_Long_7"@.len() implies "NFT_B_Hair_Long_7"@[q] != 'C' by {}
                    }
                    assert(!("NFT_B_Hair_Long_7"@).contains('c')) by {
                        assert forall|q: int| 0 <= q < "NFT_B_Hair_Long_7"@.len() implies "NFT_B_Hair_Long_7"@[q] != 'c' by {}
                    }
                    lemma_char_absent_no_substring("NFT_B_Hair_Long_7"@, "Clothes"@, 'C');
                    lemma_char_absent_no_substring("NFT_B_Hair_Long_7"@, "Face"@, 'c');
                } else if i == 4 {
                    reveal_strlit("NFT_B_Hair_Long_8");
                    assert(!("NFT_B_Hair_Long_8"@).contains('C')) by {
                        assert forall|q: int| 0 <= q < "NFT_B_Hair_Long_8"@.len() implies "NFT_B_Hair_Long_8"@[q] != 'C' by {}
                    }
                    assert(!("NFT_B_Hair_Long_8"@).contains('c')) by {
                        assert forall|q: int| 0 <= q < "NFT_B_Hair_Long_8"@.len() implies "NFT_B_Hair_Long_8"@[q] != 'c' by {}
                    }
                    lemma_char_absent_no_substring("NFT_B_Hair_Long_8"@, "Clothes"@, 'C');
                    lemma_char_absent_no_substring("NFT_B_Hair_Long_8"@, "Face"@, 'c');
                } else if i == 5 {
                    reveal_strlit("NFT_B_Hair_Long_9");
                    assert(!("NFT_B_Hair_Long_9"@).contains('C')) by {
                        assert forall|q: int| 0 <= q < "NFT_B_Hair_Long_9"@.len() implies "NFT_B_Hair_Long_9"@[q] != 'C' by {}
                    }
                    assert(!("NFT_B_Hair_Long_9"@).contains('c')) by {
                        assert forall|q: int| 0 <= q < "NFT_B_Hair_Long_9"@.len() implies "NFT_B_Hair_Long_9"@[q] != 'c' by {}
                    }
                    lemma_char_absent_no_substring("NFT_B_Hair_Long_9"@, "Clothes"@, 'C');
                    lemma_char_absent_no_substring("NFT_B_Hair_Long_9"@, "Face"@, 'c');
                } else if i == 6 {
                    reveal_strlit("NFT_B_Hair_Long_10");
                    assert(!("NFT_B_Hair_Long_10"@).contains('C')) by {
                        assert forall|q: int| 0 <= q < "NFT_B_Hair_Long_10"@.len() implies "NFT_B_Hair_Long_10"@[q] != 'C' by {}
                    }
                    assert(!("NFT_B_Hair_Long_10"@).contains('c')) by {
                        assert forall|q: int| 0 <= q < "NFT_B_Hair_Long_10"@.len() implies "NFT_B_Hair_Long_10"@[q] != 'c' by {}
                    }
                    lemma_char_absent_no_substring("NFT_B_Hair_Long_10"@, "Clothes"@, 'C');
                    lemma_char_absent_no_substring("NFT_B_Hair_Long_10"@, "Face"@, 'c');
                }
            },
            Rarity::Rare => {
                if i == 0 {
                    reveal_strlit("NFT_B_Hair_Long_32");
                    assert(!("NFT_B_Hair_Long_32"@).contains('C')) by {
                        assert forall|q: int| 0 <= q < "NFT_B_Hair_Long_32"@.len() implies "NFT_B_Hair_Long_32"@[q] != 'C' by {}
                    }
                    assert(!("NFT_B_Hair_Long_32"@).contains('c')) by {
                        assert forall|q: int| 0 <= q < "NFT_B_Hair_Long_32"@.len() implies "NFT_B_Hair_Long_32"@[q] != 'c' by {}
                    }
                    lemma_char_absent_no_substring("NFT_B_Hair_Long_32"@, "Clothes"@, 'C');
                    lemma_char_absent_no_substring("NFT_B_Hair_Long_32"@, "Face"@, 'c');
                } else if i == 1 {
                    reveal_strlit("NFT_B_Hair_Long_33");
                    assert(!("NFT_B_Hair_Long_33"@).contains('C')) by {
                        assert forall|q: int| 0 <= q < "NFT_B_Hair_Long_33"@.len() implies "NFT_B_Hair_Long_33"@[q] != 'C' by {}
                    }
                    assert(!("NFT_B_Hair_Long_33"@).contains('c')) by {
                        assert forall|q: int| 0 <= q < "NFT_B_Hair_Long_33"@.len() implies "NFT_B_Hair_Long_33"@[q] != 'c' by {}
                    }
                    lemma_char_absent_no_substring("NFT_B_Hair_Long_33"@, "Clothes"@, 'C');
                    lemma_char_absent_no_substring("NFT_B_Hair_Long_33"@, "Face"@, 'c');
                } else if i == 2 {
                    reveal_strlit("NFT_B_Hair_Long_34");
                    assert(!("NFT_B_Hair_Long_34"@).contains('C')) by {
                        assert forall|q: int| 0 <= q < "NFT_B_Hair_Long_34"@.len() implies "NFT_B_Hair_Long_34"@[q] != 'C' by {}
                    }
                    assert(!("NFT_B_Hair_Long_34"@).contains('c')) by {
                        assert forall|q: int| 0 <= q < "NFT_B_Hair_Long_34"@.len() implies "NFT_B_Hair_Long_34"@[q] != 'c' by {}
                    }
                    lemma_char_absent_no_substring("NFT_B_Hair_Long_34"@, "Clothes"@, 'C');
                    lemma_char_absent_no_substring("NFT_B_Hair_Long_34"@, "Face"@, 'c');
                } else if i == 3 {
                    reveal_strlit("NFT_B_Hair_Long_35");
                    assert(!("NFT_B_Hair_Long_35"@).contains('C')) by {
                        assert forall|q: int| 0 <= q < "NFT_B_Hair_Long_35"@.len() implies "NFT_B_Hair_Long_35"@[q] != 'C' by {}
                    }
                    assert(!("NFT_B_Hair_Long_35"@).contains('c')) by {
                        assert forall|q: int| 0 <= q < "NFT_B_Hair_Long_35"@.len() implies "NFT_B_Hair_Long_35"@[q] != 'c' by {}
                    }
                    lemma_char_absent_no_substring("NFT_B_Hair_Long_35"@, "Clothes"@, 'C');
                    lemma_char_absent_no_substring("NFT_B_Hair_Long_35"@, "Face"@, 'c');
                } else if i == 4 {
                    reveal_strlit("NFT_B_Hair_Long_36");
                    assert(!("NFT_B_Hair_Long_36"@).contains('C')) by {
                        assert forall|q: int| 0 <= q < "NFT_B_Hair_Long_36"@.len() implies "NFT_B_Hair_Long_36"@[q] != 'C' by {}
                    }
                    assert(!("NFT_B_Hair_Long_36"@).contains('c')) by {
                        assert forall|q: int| 0 <= q < "NFT_B_Hair_Long_36"@.len() implies "NFT_B_Hair_Long_36"@[q] != 'c' by {}
                    }
                    lemma_char_absent_no_substring("NFT_B_Hair_Long_36"@, "Clothes"@, 'C');
                    lemma_char_absent_no_substring("NFT_B_Hair_Long_36"@, "Face"@, 'c');
                } else if i == 5 {
                    reveal_strlit("NFT_B_Hair_Long_37");
                    assert(!("NFT_B_Hair_Long_37"@).contains('C')) by {
                        assert forall|q: int| 0 <= q < "NFT_B_Hair_Long_37"@.len() implies "NFT_B_Hair_Long_37"@[q] != 'C' by {}
                    }
                    assert(!("NFT_B_Hair_Long_37"@).contains('c')) by {
                        assert forall|q: int| 0 <= q < "NFT_B_Hair_Long_37"@.len() implies "NFT_B_Hair_Long_37"@[q] != 'c' by {}
                    }
                    lemma_char_absent_no_substring("NFT_B_Hair_Long_37"@, "Clothes"@, 'C');
                    lemma_char_absent_no_substring("NFT_B_Hair_Long_37"@, "Face"@, 'c');
                } else if i == 6 {
                    reveal_strlit("NFT_B_Hair_Long_38");
                    assert(!("NFT_B_Hair_Long_38"@).contains('C')) by {
                        assert forall|q: int| 0 <= q < "NFT_B_Hair_Long_38"@.len() implies "NFT_B_Hair_Long_38"@[q] != 'C' by {}
                    }
                    assert(!("NFT_B_Hair_Long_38"@).contains('c')) by {
                        assert forall|q: int| 0 <= q < "NFT_B_Hair_Long_38"@.len() implies "NFT_B_Hair_Long_38"@[q] != 'c' by {}
                    }
                    lemma_char_absent_no_substring("NFT_B_Hair_Long_38"@, "Clothes"@, 'C');
                    lemma_char_absent_no_substring("NFT_B_Hair_Long_38"@, "Face"@, 'c');
                }
            },
            Rarity::Epic => {
                if i == 0 {
                    reveal_strlit("NFT_B_Hair_Long_1");
                    assert(!("NFT_B_Hair_Long_1"@).contains('C')) by {
                        assert forall|q: int| 0 <= q < "NFT_B_Hair_Long_1"@.len() implies "NFT_B_Hair_Long_1"@[q] != 'C' by {}
                    }
                    assert(!("NFT_B_Hair_Long_1"@).contains('c')) by {
                        assert forall|q: int| 0 <= q < "NFT_B_Hair_Long_1"@.len() implies "NFT_B_Hair_Long_1"@[q] != 'c' by {}
                    }
                    lemma_char_absent_no_substring("NFT_B_Hair_Long_1"@, "Clothes"@, 'C');
                    lemma_char_absent_no_substring("NFT_B_Hair_Long_1"@, "Face"@, 'c');
                } else if i == 1 {
                    reveal_strlit("NFT_B_Hair_Long_5");
                    assert(!("NFT_B_Hair_Long_5"@).contains('C')) by {
                        assert forall|q: int| 0 <= q < "NFT_B_Hair_Long_5"@.len() implies "NFT_B_Hair_Long_5"@[q] != 'C' by {}
                    }
                    assert(!("NFT_B_Hair_Long_5"@).contains('c')) by {
                        assert forall|q: int| 0 <= q < "NFT_B_Hair_Long_5"@.len() implies "NFT_B_Hair_Long_5"@[q] != 'c' by {}
                    }
                    lemma_char_absent_no_substring("NFT_B_Hair_Long_5"@, "Clothes"@, 'C');
                    lemma_char_absent_no_substring("NFT_B_Hair_Long_5"@, "Face"@, 'c');
                } else if i == 2 {
                    reveal_strlit("NFT_B_Hair_Long_6");
                    assert(!("NFT_B_Hair_Long_6"@).contains('C')) by {
                        assert forall|q: int| 0 <= q < "NFT_B_Hair_Long_6"@.len() implies "NFT_B_Hair_Long_6"@[q] != 'C' by {}
                    }
                    assert(!("NFT_B_Hair_Long_6"@).contains('c')) by {
                        assert forall|q: int| 0 <= q < "NFT_B_Hair_Long_6"@.len() implies "NFT_B_Hair_Long_6"@[q] != 'c' by {}
                    }
                    lemma_char_absent_no_substring("NFT_B_Hair_Long_6"@, "Clothes"@, 'C');
                    lemma_char_absent_no_substring("NFT_B_Hair_Long_6"@, "Face"@, 'c');
                }
            },
            Rarity::Legendary => {
                if i == 0 {
                    reveal_strlit("NFT_B_Hair_Long_39");
                    assert(!("NFT_B_Hair_Long_39"@).contains('C')) by {
                        assert forall|q: int| 0 <= q < "NFT_B_Hair_Long_39"@.len() implies "NFT_B_Hair_Long_39"@[q] != 'C' by {}
                    }
                    assert(!("NFT_B_Hair_Long_39"@).contains('c')) by {
                        assert forall|q: int| 0 <= q < "NFT_B_Hair_Long_39"@.len() implies "NFT_B_Hair_Long_39"@[q] != 'c' by {}
                    }
                    lemma_char_absent_no_substring("NFT_B_Hair_Long_39"@, "Clothes"@, 'C');
                    lemma_char_absent_no_substring("NFT_B_Hair_Long_39"@, "Face"@, 'c');
                } else if i == 1 {
                    reveal_strlit("NFT_B_Hair_Long_41");
                    assert(!("NFT_B_Hair_Long_41"@).contains('C')) by {
                        assert forall|q: int| 0 <= q < "NFT_B_Hair_Long_41"@.len() implies "NFT_B_Hair_Long_41"@[q] != 'C' by {}
                    }
                    assert(!("NFT_B_Hair_Long_41"@).contains('c')) by {
                        assert forall|q: int| 0 <= q < "NFT_B_Hair_Long_41"@.len() implies "NFT_B_Hair_Long_41"@[q] != 'c' by {}
                    }
                    lemma_char_absent_no_substring("NFT_B_Hair_Long_41"@, "Clothes"@, 'C');
                    lemma_char_absent_no_substring("NFT_B_Hair_Long_41"@, "Face"@, 'c');
                }
            },
            Rarity::Mythical => {
                if i == 0 {
                    reveal_strlit("NFT_B_Hair_Long_40");
                    assert(!("NFT_B_Hair_Long_40"@).contains('C')) by {
                        assert forall|q: int| 0 <= q < "NFT_B_Hair_Long_40"@.len() implies "NFT_B_Hair_Long_40"@[q] != 'C' by {}
                    }
                    assert(!("NFT_B_Hair_Long_40"@).contains('c')) by {
                        assert forall|q: int| 0 <= q < "NFT_B_Hair_Long_40"@.len() implies "NFT_B_Hair_Long_40"@[q] != 'c' by {}
                    }
                    lemma_char_absent_no_substring("NFT_B_Hair_Long_40"@, "Clothes"@, 'C');
                    lemma_char_absent_no_substring("NFT_B_Hair_Long_40"@, "Face"@, 'c');
                } else if i == 1 {
                    reveal_strlit("NFT_B_Hair_Long_42");
                    assert(!("NFT_B_Hair_Long_42"@).contains('C')) by {
                        assert forall|q: int| 0 <= q < "NFT_B_Hair_Long_42"@.len() implies "NFT_B_Hair_Long_42"@[q] != 'C' by {}
                    }
                    assert(!("NFT_B_Hair_Long_42"@).contains('c')) by {
                        assert forall|q: int| 0 <= q < "NFT_B_Hair_Long_42"@.len() implies "NFT_B_Hair_Long_42"@[q] != 'c' by {}
                    }
                    lemma_char_absent_no_substring("NFT_B_Hair_Long_42"@, "Clothes"@, 'C');
                    lemma_char_absent_no_substring("NFT_B_Hair_Long_42"@, "Face"@, 'c');
                }
            },
        },
        Gender::Girl => match r {
            Rarity::Common => {
                if i == 0 {
                    reveal_strlit("NFT_G_Hair_Long_17");
                    assert(!("NFT_G_Hair_Long_17"@).contains('C')) by {
                        assert forall|q: int| 0 <= q < "NFT_G_Hair_Long_17"@.len() implies "NFT_G_Hair_Long_17"@[q] != 'C' by {}
                    }
                    assert(!("NFT_G_Hair_Long_17"@).contains('c')) by {
                        assert forall|q: int| 0 <= q < "NFT_G_Hair_Long_17"@.len() implies "NFT_G_Hair_Long_17"@[q] != 'c' by {}
                    }
                    lemma_char_absent_no_substring("NFT_G_Hair_Long_17"@, "Clothes"@, 'C');
                    lemma_char_absent_no_substring("NFT_G_Hair_Long_17"@, "Face"@, 'c');
                } else if i == 1 {
                    reveal_strlit("NFT_G_Hair_Long_18");
                    assert(!("NFT_G_Hair_Long_18"@).contains('C')) by {
                        assert forall|q: int| 0 <= q < "NFT_G_Hair_Long_18"@.len() implies "NFT_G_Hair_Long_18"@[q] != 'C' by {}
                    }
                    assert(!("NFT_G_Hair_Long_18"@).contains('c')) by {
                        assert forall|q: int| 0 <= q < "NFT_G_Hair_Long_18"@.len() implies "NFT_G_Hair_Long_18"@[q] != 'c' by {}
                    }
                    lemma_char_absent_no_substring("NFT_G_Hair_Long_18"@, "Clothes"@, 'C');
                    lemma_char_absent_no_substring("NFT_G_Hair_Long_18"@, "Face"@, 'c');
                } else if i == 2 {
                    reveal_strlit("NFT_G_Hair_Long_19");
                    assert(!("NFT_G_Hair_Long_19"@).contains('C')) by {
                        assert forall|q: int| 0 <= q < "NFT_G_Hair_Long_19"@.len() implies "NFT_G_Hair_Long_19"@[q] != 'C' by {}
                    }
                    assert(!("NFT_G_Hair_Long_19"@).contains('c')) by {
                        assert forall|q: int| 0 <= q < "NFT_G_Hair_Long_19"@.len() implies "NFT_G_Hair_Long_19"@[q] != 'c' by {}
                    }
                    lemma_char_absent_no_substring("NFT_G_Hair_Long_19"@, "Clothes"@, 'C');
                    lemma_char_absent_no_substring("NFT_G_Hair_Long_19"@, "Face"@, 'c');
                } else if i == 3 {
                    reveal_strlit("NFT_G_Hair_Long_20");
                    assert(!("NFT_G_Hair_Long_20"@).contains('C')) by {
                        assert forall|q: int| 0 <= q < "NFT_G_Hair_Long_20"@.len() implies "NFT_G_Hair_Long_20"@[q] != 'C' by {}
                    }
                    assert(!("NFT_G_Hair_Long_20"@).contains('c')) by {
                        assert forall|q: int| 0 <= q < "NFT_G_Hair_Long_20"@.len() implies "NFT_G_Hair_Long_20"@[q] != 'c' by {}
                    }
                    lemma_char_absent_no_substring("NFT_G_Hair_Long_20"@, "Clothes"@, 'C');
                    lemma_char_absent_no_substring("NFT_G_Hair_Long_20"@, "Face"@, 'c');
                } else if i == 4 {
                    reveal_strlit("NFT_G_Hair_Long_21");
                    assert(!("NFT_G_Hair_Long_21"@).contains('C')) by {
                        assert forall|q: int| 0 <= q < "NFT_G_Hair_Long_21"@.len() implies "NFT_G_Hair_Long_21"@[q] != 'C' by {}
                    }
                    assert(!("NFT_G_Hair_Long_21"@).contains('c')) by {
                        assert forall|q: int| 0 <= q < "NFT_G_Hair_Long_21"@.len() implies "NFT_G_Hair_Long_21"@[q] != 'c' by {}
                    }
                    lemma_char_absent_no_substring("NFT_G_Hair_Long_21"@, "Clothes"@, 'C');
                    lemma_char_absent_no_substring("NFT_G_Hair_Long_21"@, "Face"@, 'c');
                } else if i == 5 {
                    reveal_strlit("NFT_G_Hair_Long_22");
                    assert(!("NFT_G_Hair_Long_22"@).contains('C')) by {
                        assert forall|q: int| 0 <= q < "NFT_G_Hair_Long_22"@.len() implies "NFT_G_Hair_Long_22"@[q] != 'C' by {}
                    }
                    assert(!("NFT_G_Hair_Long_22"@).contains('c')) by {
                        assert forall|q: int| 0 <= q < "NFT_G_Hair_Long_22"@.len() implies "NFT_G_Hair_Long_22"@[q] != 'c' by {}
                    }
                    lemma_char_absent_no_substring("NFT_G_Hair_Long_22"@, "Clothes"@, 'C');
                    lemma_char_absent_no_substring("NFT_G_Hair_Long_22"@, "Face"@, 'c');
                } else if i == 6 {
                    reveal_strlit("NFT_G_Hair_Long_23");
                    assert(!("NFT_G_Hair_Long_23"@).contains('C')) by {
                        assert forall|q: int| 0 <= q < "NFT_G_Hair_Long_23"@.len() implies "NFT_G_Hair_Long_23"@[q] != 'C' by {}
                    }
                    assert(!("NFT_G_Hair_Long_23"@).contains('c')) by {
                        assert forall|q: int| 0 <= q < "NFT_G_Hair_Long_23"@.len() implies "NFT_G_Hair_Long_23"@[q] != 'c' by {}
                    }
                    lemma_char_absent_no_substring("NFT_G_Hair_Long_23"@, "Clothes"@, 'C');
                    lemma_char_absent_no_substring("NFT_G_Hair_Long_23"@, "Face"@, 'c');
                } else if i == 7 {
                    reveal_strlit("NFT_G_Hair_Long_24");
                    assert(!("NFT_G_Hair_Long_24"@).contains('C')) by {
                        assert forall|q: int| 0 <= q < "NFT_G_Hair_Long_24"@.len() implies "NFT_G_Hair_Long_24"@[q] != 'C' by {}
                    }
                    assert(!("NFT_G_Hair_Long_24"@).contains('c')) by {
                        assert forall|q: int| 0 <= q < "NFT_G_Hair_Long_24"@.len() implies "NFT_G_Hair_Long_24"@[q] != 'c' by {}
                    }
                    lemma_char_absent_no_substring("NFT_G_Hair_Long_24"@, "Clothes"@, 'C');
                    lemma_char_absent_no_substring("NFT_G_Hair_Long_24"@, "Face"@, 'c');
                } else if i == 8 {
                    reveal_strlit("NFT_G_Hair_Long_25");
                    assert(!("NFT_G_Hair_Long_25"@).contains('C')) by {
                        assert forall|q: int| 0 <= q < "NFT_G_Hair_Long_25"@.len() implies "NFT_G_Hair_Long_25"@[q] != 'C' by {}
                    }
                    assert(!("NFT_G_Hair_Long_25"@).contains('c')) by {
                        assert forall|q: int| 0 <= q < "NFT_G_Hair_Long_25"@.len() implies "NFT_G_Hair_Long_25"@[q] != 'c' by {}
                    }
                    lemma_char_absent_no_substring("NFT_G_Hair_Long_25"@, "Clothes"@, 'C');
                    lemma_char_absent_no_substring("NFT_G_Hair_Long_25"@, "Face"@, 'c');
                } else if i == 9 {
                    reveal_strlit("NFT_G_Hair_Long_26");
                    assert(!("NFT_G_Hair_Long_26"@).contains('C')) by {
                        assert forall|q: int| 0 <= q < "NFT_G_Hair_Long_26"@.len() implies "NFT_G_Hair_Long_26"@[q] != 'C' by {}
                    }
                    assert(!("NFT_G_Hair_Long_26"@).contains('c')) by {
                        assert forall|q: int| 0 <= q < "NFT_G_Hair_Long_26"@.len() implies "NFT_G_Hair_Long_26"@[q] != 'c' by {}
                    }
                    lemma_char_absent_no_substring("NFT_G_Hair_Long_26"@, "Clothes"@, 'C');
                    lemma_char_absent_no_substring("NFT_G_Hair_Long_26"@, "Face"@, 'c');
                } else if i == 10 {
                    reveal_strlit("NFT_G_Hair_Long_27");
                    assert(!("NFT_G_Hair_Long_27"@).contains('C')) by {
                        assert forall|q: int| 0 <= q < "NFT_G_Hair_Long_27"@.len() implies "NFT_G_Hair_Long_27"@[q] != 'C' by {}
                    }
                    assert(!("NFT_G_Hair_Long_27"@).contains('c')) by {
                        assert forall|q: int| 0 <= q < "NFT_G_Hair_Long_27"@.len() implies "NFT_G_Hair_Long_27"@[q] != 'c' by {}
                    }
                    lemma_char_absent_no_substring("NFT_G_Hair_Long_27"@, "Clothes"@, 'C');
                    lemma_char_absent_no_substring("NFT_G_Hair_Long_27"@, "Face"@, 'c');
                } else if i == 11 {
                    reveal_strlit("NFT_G_Hair_Long_28");
                    assert(!("NFT_G_Hair_Long_28"@).contains('C')) by {
                        assert forall|q: int| 0 <= q < "NFT_G_Hair_Long_28"@.len() implies "NFT_G_Hair_Long_28"@[q] != 'C' by {}
                    }
                    assert(!("NFT_G_Hair_Long_28"@).contains('c')) by {
                        assert forall|q: int| 0 <= q < "NFT_G_Hair_Long_28"@.len() implies "NFT_G_Hair_Long_28"@[q] != 'c' by {}
                    }
                    lemma_char_absent_no_substring("NFT_G_Hair_Long_28"@, "Clothes"@, 'C');
                    lemma_char_absent_no_substring("NFT_G_Hair_Long_28"@, "Face"@, 'c');
                } else if i == 12 {
                    reveal_strlit("NFT_G_Hair_Long_29");
                    assert(!("NFT_G_Hair_Long_29"@).contains('C')) by {
                        assert forall|q: int| 0 <= q < "NFT_G_Hair_Long_29"@.len() implies "NFT_G_Hair_Long_29"@[q] != 'C' by {}
                    }
                    assert(!("NFT_G_Hair_Long_29"@).contains('c')) by {
                        assert forall|q: int| 0 <= q < "NFT_G_Hair_Long_29"@.len() implies "NFT_G_Hair_Long_29"@[q] != 'c' by {}
                    }
                    lemma_char_absent_no_substring("NFT_G_Hair_Long_29"@, "Clothes"@, 'C');
                    lemma_char_absent_no_substring("NFT_G_Hair_Long_29"@, "Face"@, 'c');
                } else if i == 13 {
                    reveal_strlit("NFT_G_Hair_Long_30");
                    assert(!("NFT_G_Hair_Long_30"@).contains('C')) by {
                        assert forall|q: int| 0 <= q < "NFT_G_Hair_Long_30"@.len() implies "NFT_G_Hair_Long_30"@[q] != 'C' by {}
                    }
                    assert(!("NFT_G_Hair_Long_30"@).contains('c')) by {
                        assert forall|q: int| 0 <= q < "NFT_G_Hair_Long_30"@.len() implies "NFT_G_Hair_Long_30"@[q] != 'c' by {}
                    }
                    lemma_char_absent_no_substring("NFT_G_Hair_Long_30"@, "Clothes"@, 'C');
                    lemma_char_absent_no_substring("NFT_G_Hair_Long_30"@, "Face"@, 'c');
                } else if i == 14 {
                    reveal_strlit("NFT_G_Hair_Long_31");
                    assert(!("NFT_G_Hair_Long_31"@).contains('C')) by {
                        assert forall|q: int| 0 <= q < "NFT_G_Hair_Long_31"@.len() implies "NFT_G_Hair_Long_31"@[q] != 'C' by {}
                    }
                    assert(!("NFT_G_Hair_Long_31"@).contains('c')) by {
                        assert forall|q: int| 0 <= q < "NFT_G_Hair_Long_31"@.len() implies "NFT_G_Hair_Long_31"@[q] != 'c' by {}
                    }
                    lemma_char_absent_no_substring("NFT_G_Hair_Long_31"@, "Clothes"@, 'C');
                    lemma_char_absent_no_substring("NFT_G_Hair_Long_31"@, "Face"@, 'c');
                }
            },
            Rarity::Uncommon => {
                if i == 0 {
                    reveal_strlit("NFT_G_Hair_Long_4");
                    assert(!("NFT_G_Hair_Long_4"@).contains('C')) by {
                        assert forall|q: int| 0 <= q < "NFT_G_Hair_Long_4"@.len() implies "NFT_G_Hair_Long_4"@[q] != 'C' by {}
                    }
                    assert(!("NFT_G_Hair_Long_4"@).contains('c')) by {
                        assert forall|q: int| 0 <= q < "NFT_G_Hair_Long_4"@.len() implies "NFT_G_Hair_Long_4"@[q] != 'c' by {}
                    }
                    lemma_char_absent_no_substring("NFT_G_Hair_Long_4"@, "Clothes"@, 'C');
                    lemma_char_absent_no_substring("NFT_G_Hair_Long_4"@, "Face"@, 'c');
                } else if i == 1 {
                    reveal_strlit("NFT_G_Hair_Long_5");
                    assert(!("NFT_G_Hair_Long_5"@).contains('C')) by {
                        assert forall|q: int| 0 <= q < "NFT_G_Hair_Long_5"@.len() implies "NFT_G_Hair_Long_5"@[q] != 'C' by {}
                    }
                    assert(!("NFT_G_Hair_Long_5"@).contains('c')) by {
                        assert forall|q: int| 0 <= q < "NFT_G_Hair_Long_5"@.len() implies "NFT_G_Hair_Long_5"@[q] != 'c' by {}
                    }
                    lemma_char_absent_no_substring("NFT_G_Hair_Long_5"@, "Clothes"@, 'C');
                    lemma_char_absent_no_substring("NFT_G_Hair_Long_5"@, "Face"@, 'c');
                } else if i == 2 {
                    reveal_strlit("NFT_G_Hair_Long_6");
                    assert(!("NFT_G_Hair_Long_6"@).contains('C')) by {
                        assert forall|q: int| 0 <= q < "NFT_G_Hair_Long_6"@.len() implies "NFT_G_Hair_Long_6"@[q] != 'C' by {}
                    }
                    assert(!("NFT_G_Hair_Long_6"@).contains('c')) by {
                        assert forall|q: int| 0 <= q < "NFT_G_Hair_Long_6"@.len() implies "NFT_G_Hair_Long_6"@[q] != 'c' by {}
                    }
                    lemma_char_absent_no_substring("NFT_G_Hair_Long_6"@, "Clothes"@, 'C');
                    lemma_char_absent_no_substring("NFT_G_Hair_Long_6"@, "Face"@, 'c');
                } else if i == 3 {
                    reveal_strlit("NFT_G_Hair_Long_7");
                    assert(!("NFT_G_Hair_Long_7"@).contains('C')) by {
                        assert forall|q: int| 0 <= q < "NFT_G_Hair_Long_7"@.len() implies "NFT_G_Hair_Long_7"@[q] != 'C' by {}
                    }
                    assert(!("NFT_G_Hair_Long_7"@).contains('c')) by {
                        assert forall|q: int| 0 <= q < "NFT_G_Hair_Long_7"@.len() implies "NFT_G_Hair_Long_7"@[q] != 'c' by {}
                    }
                    lemma_char_absent_no_substring("NFT_G_Hair_Long_7"@, "Clothes"@, 'C');
                    lemma_char_absent_no_substring("NFT_G_Hair_Long_7"@, "Face"@, 'c');
                } else if i == 4 {
                    reveal_strlit("NFT_G_Hair_Long_8");
                    assert(!("NFT_G_Hair_Long_8"@).contains('C')) by {
                        assert forall|q: int| 0 <= q < "NFT_G_Hair_Long_8"@.len() implies "NFT_G_Hair_Long_8"@[q] != 'C' by {}
                    }
                    assert(!("NFT_G_Hair_Long_8"@).contains('c')) by {
                        assert forall|q: int| 0 <= q < "NFT_G_Hair_Long_8"@.len() implies "NFT_G_Hair_Long_8"@[q] != 'c' by {}
                    }
                    lemma_char_absent_no_substring("NFT_G_Hair_Long_8"@, "Clothes"@, 'C');
                    lemma_char_absent_no_substring("NFT_G_Hair_Long_8"@, "Face"@, 'c');
                } else if i == 5 {
                    reveal_strlit("NFT_G_Hair_Long_9");
                    assert(!("NFT_G_Hair_Long_9"@).contains('C')) by {
                        assert forall|q: int| 0 <= q < "NFT_G_Hair_Long_9"@.len() implies "NFT_G_Hair_Long_9"@[q] != 'C' by {}
                    }
                    assert(!("NFT_G_Hair_Long_9"@).contains('c')) by {
                        assert forall|q: int| 0 <= q < "NFT_G_Hair_Long_9"@.len() implies "NFT_G_Hair_Long_9"@[q] != 'c' by {}
                    }
                    lemma_char_absent_no_substring("NFT_G_Hair_Long_9"@, "Clothes"@, 'C');
                    lemma_char_absent_no_substring("NFT_G_Hair_Long_9"@, "Face"@, 'c');
                } else if i == 6 {
                    reveal_strlit("NFT_G_Hair_Long_10");
                    assert(!("NFT_G_Hair_Long_10"@).contains('C')) by {
                        assert forall|q: int| 0 <= q < "NFT_G_Hair_Long_10"@.len() implies "NFT_G_Hair_Long_10"@[q] != 'C' by {}
                    }
                    assert(!("NFT_G_Hair_Long_10"@).contains('c')) by {
                        assert forall|q: int| 0 <= q < "NFT_G_Hair_Long_10"@.len() implies "NFT_G_Hair_Long_10"@[q] != 'c' by {}
                    }
                    lemma_char_absent_no_substring("NFT_G_Hair_Long_10"@, "Clothes"@, 'C');
                    lemma_char_absent_no_substring("NFT_G_Hair_Long_10"@, "Face"@, 'c');
                } else if i == 7 {
                    reveal_strlit("NFT_G_Hair_Long_13");
                    assert(!("NFT_G_Hair_Long_13"@).contains('C')) by {
                        assert forall|q: int| 0 <= q < "NFT_G_Hair_Long_13"@.len() implies "NFT_G_Hair_Long_13"@[q] != 'C' by {}
                    }
                    assert(!("NFT_G_Hair_Long_13"@).contains('c')) by {
                        assert forall|q: int| 0 <= q < "NFT_G_Hair_Long_13"@.len() implies "NFT_G_Hair_Long_13"@[q] != 'c' by {}
                    }
                    lemma_char_absent_no_substring("NFT_G_Hair_Long_13"@, "Clothes"@, 'C');
                    lemma_char_absent_no_substring("NFT_G_Hair_Long_13"@, "Face"@, 'c');
                } else if i == 8 {
                    reveal_strlit("NFT_G_Hair_Long_14");
                    assert(!("NFT_G_Hair_Long_14"@).contains('C')) by {
                        assert forall|q: int| 0 <= q < "NFT_G_Hair_Long_14"@.len() implies "NFT_G_Hair_Long_14"@[q] != 'C' by {}
                    }
                    assert(!("NFT_G_Hair_Long_14"@).contains('c')) by {
                        assert forall|q: int| 0 <= q < "NFT_G_Hair_Long_14"@.len() implies "NFT_G_Hair_Long_14"@[q] != 'c' by {}
                    }
                    lemma_char_absent_no_substring("NFT_G_Hair_Long_14"@, "Clothes"@, 'C');
                    lemma_char_absent_no_substring("NFT_G_Hair_Long_14"@, "Face"@, 'c');
                } else if i == 9 {
                    reveal_strlit("NFT_G_Hair_Long_15");
                    assert(!("NFT_G_Hair_Long_15"@).contains('C')) by {
                        assert forall|q: int| 0 <= q < "NFT_G_Hair_Long_15"@.len() implies "NFT_G_Hair_Long_15"@[q] != 'C' by {}
                    }
                    assert(!("NFT_G_Hair_Long_15"@).contains('c')) by {
                        assert forall|q: int| 0 <= q < "NFT_G_Hair_Long_15"@.len() implies "NFT_G_Hair_Long_15"@[q] != 'c' by {}
                    }
                    lemma_char_absent_no_substring("NFT_G_Hair_Long_15"@, "Clothes"@, 'C');
                    lemma_char_absent_no_substring("NFT_G_Hair_Long_15"@, "Face"@, 'c');
                } else if i == 10 {
                    reveal_strlit("NFT_G_Hair_Long_16");
                    assert(!("NFT_G_Hair_Long_16"@).contains('C')) by {
                        assert forall|q: int| 0 <= q < "NFT_G_Hair_Long_16"@.len() implies "NFT_G_Hair_Long_16"@[q] != 'C' by {}
                    }
                    assert(!("NFT_G_Hair_Long_16"@).contains('c')) by {
                        assert forall|q: int| 0 <= q < "NFT_G_Hair_Long_16"@.len() implies "NFT_G_Hair_Long_16"@[q] != 'c' by {}
                    }
                    lemma_char_absent_no_substring("NFT_G_Hair_Long_16"@, "Clothes"@, 'C');
                    lemma_char_absent_no_substring("NFT_G_Hair_Long_16"@, "Face"@, 'c');
                } else if i == 11 {
                    reveal_strlit("NFT_G_Hair_Long_32");
                    assert(!("NFT_G_Hair_Long_32"@).contains('C')) by {
                        assert forall|q: int| 0 <= q < "NFT_G_Hair_Long_32"@.len() implies "NFT_G_Hair_Long_32"@[q] != 'C' by {}
                    }
                    assert(!("NFT_G_Hair_Long_32"@).contains('c')) by {
                        assert forall|q: int| 0 <= q < "NFT_G_Hair_Long_32"@.len() implies "NFT_G_Hair_Long_32"@[q] != 'c' by {}
                    }
                    lemma_char_absent_no_substring("NFT_G_Hair_Long_32"@, "Clothes"@, 'C');
                    lemma_char_absent_no_substring("NFT_G_Hair_Long_32"@, "Face"@, 'c');
                } else if i == 12 {
                    reveal_strlit("NFT_G_Hair_Long_33");
                    assert(!("NFT_G_Hair_Long_33"@).contains('C')) by {
                        assert forall|q: int| 0 <= q < "NFT_G_Hair_Long_33"@.len() implies "NFT_G_Hair_Long_33"@[q] != 'C' by {}
                    }
                    assert(!("NFT_G_Hair_Long_33"@).contains('c')) by {
                        assert forall|q: int| 0 <= q < "NFT_G_Hair_Long_33"@.len() implies "NFT_G_Hair_Long_33"@[q] != 'c' by {}
                    }
                    lemma_char_absent_no_substring("NFT_G_Hair_Long_33"@, "Clothes"@, 'C');
                    lemma_char_absent_no_substring("NFT_G_Hair_Long_33"@, "Face"@, 'c');
                } else if i == 13 {
                    reveal_strlit("NFT_G_Hair_Long_37");
                    assert(!("NFT_G_Hair_Long_37"@).contains('C')) by {
                        assert forall|q: int| 0 <= q < "NFT_G_Hair_Long_37"@.len() implies "NFT_G_Hair_Long_37"@[q] != 'C' by {}
                    }
                    assert(!("NFT_G_Hair_Long_37"@).contains('c')) by {
                        assert forall|q: int| 0 <= q < "NFT_G_Hair_Long_37"@.len() implies "NFT_G_Hair_Long_37"@[q] != 'c' by {}
                    }
                    lemma_char_absent_no_substring("NFT_G_Hair_Long_37"@, "Clothes"@, 'C');
                    lemma_char_absent_no_substring("NFT_G_Hair_Long_37"@, "Face"@, 'c');
                } else if i == 14 {
                    reveal_strlit("NFT_G_Hair_Long_38");
                    assert(!("NFT_G_Hair_Long_38"@).contains('C')) by {
                        assert forall|q: int| 0 <= q < "NFT_G_Hair_Long_38"@.len() implies "NFT_G_Hair_Long_38"@[q] != 'C' by {}
                    }
                    assert(!("NFT_G_Hair_Long_38"@).contains('c')) by {
                        assert forall|q: int| 0 <= q < "NFT_G_Hair_Long_38"@.len() implies "NFT_G_Hair_Long_38"@[q] != 'c' by {}
                    }
                    lemma_char_absent_no_substring("NFT_G_Hair_Long_38"@, "Clothes"@, 'C');
                    lemma_char_absent_no_substring("NFT_G_Hair_Long_38"@, "Face"@, 'c');
                } else if i == 15 {
                    reveal_strlit("NFT_G_Hair_Long_39");
                    assert(!("NFT_G_Hair_Long_39"@).contains('C')) by {
                        assert forall|q: int| 0 <= q < "NFT_G_Hair_Long_39"@.len() implies "NFT_G_Hair_Long_39"@[q] != 'C' by {}
                    }
                    assert(!("NFT_G_Hair_Long_39"@).contains('c')) by {
                        assert forall|q: int| 0 <= q < "NFT_G_Hair_Long_39"@.len() implies "NFT_G_Hair_Long_39"@[q] != 'c' by {}
                    }
                    lemma_char_absent_no_substring("NFT_G_Hair_Long_39"@, "Clothes"@, 'C');
                    lemma_char_absent_no_substring("NFT_G_Hair_Long_39"@, "Face"@, 'c');
                } else if i == 16 {
                    reveal_strlit("NFT_G_Hair_Long_40");
                    assert(!("NFT_G_Hair_Long_40"@).contains('C')) by {
                        assert forall|q: int| 0 <= q < "NFT_G_Hair_Long_40"@.len() implies "NFT_G_Hair_Long_40"@[q] != 'C' by {}
                    }
                    assert(!("NFT_G_Hair_Long_40"@).contains('c')) by {
                        assert forall|q: int| 0 <= q < "NFT_G_Hair_Long_40"@.len() implies "NFT_G_Hair_Long_40"@[q] != 'c' by {}
                    }
                    lemma_char_absent_no_substring("NFT_G_Hair_Long_40"@, "Clothes"@, 'C');
                    lemma_char_absent_no_substring("NFT_G_Hair_Long_40"@, "Face"@, 'c');
                } else if i == 17 {
                    reveal_strlit("NFT_G_Hair_Long_41");
                    assert(!("NFT_G_Hair_Long_41"@).contains('C')) by {
                        assert forall|q: int| 0 <= q < "NFT_G_Hair_Long_41"@.len() implies "NFT_G_Hair_Long_41"@[q] != 'C' by {}
                    }
                    assert(!("NFT_G_Hair_Long_41"@).contains('c')) by {
                        assert forall|q: int| 0 <= q < "NFT_G_Hair_Long_41"@.len() implies "NFT_G_Hair_Long_41"@[q] != 'c' by {}
                    }
                    lemma_char_absent_no_substring("NFT_G_Hair_Long_41"@, "Clothes"@, 'C');
                    lemma_char_absent_no_substring("NFT_G_Hair_Long_41"@, "Face"@, 'c');
                } else if i == 18 {
                    reveal_strlit("NFT_G_Hair_Long_42");
                    assert(!("NFT_G_Hair_Long_42"@).contains('C')) by {
                        assert forall|q: int| 0 <= q < "NFT_G_Hair_Long_42"@.len() implies "NFT_G_Hair_Long_42"@[q] != 'C' by {}
                    }
                    assert(!("NFT_G_Hair_Long_42"@).contains('c')) by {
                        assert forall|q: int| 0 <= q < "NFT_G_Hair_Long_42"@.len() implies "NFT_G_Hair_Long_42"@[q] != 'c' by {}
                    }
                    lemma_char_absent_no_substring("NFT_G_Hair_Long_42"@, "Clothes"@, 'C');
                    lemma_char_absent_no_substring("NFT_G_Hair_Long_42"@, "Face"@, 'c');
                }
            },
            Rarity::Rare => {
                if i == 0 {
                    reveal_strlit("NFT_G_Hair_Long_34");
                    assert(!("NFT_G_Hair_Long_34"@).contains('C')) by {
                        assert forall|q: int| 0 <= q < "NFT_G_Hair_Long_34"@.len() implies "NFT_G_Hair_Long_34"@[q] != 'C' by {}
                    }
                    assert(!("NFT_G_Hair_Long_34"@).contains('c')) by {
                        assert forall|q: int| 0 <= q < "NFT_G_Hair_Long_34"@.len() implies "NFT_G_Hair_Long_34"@[q] != 'c' by {}
                    }
                    lemma_char_absent_no_substring("NFT_G_Hair_Long_34"@, "Clothes"@, 'C');
                    lemma_char_absent_no_substring("NFT_G_Hair_Long_34"@, "Face"@, 'c');
                } else if i == 1 {
                    reveal_strlit("NFT_G_Hair_Long_35");
                    assert(!("NFT_G_Hair_Long_35"@).contains('C')) by {
                        assert forall|q: int| 0 <= q < "NFT_G_Hair_Long_35"@.len() implies "NFT_G_Hair_Long_35"@[q] != 'C' by {}
                    }
                    assert(!("NFT_G_Hair_Long_35"@).contains('c')) by {
                        assert forall|q: int| 0 <= q < "NFT_G_Hair_Long_35"@.len() implies "NFT_G_Hair_Long_35"@[q] != 'c' by {}
                    }
                    lemma_char_absent_no_substring("NFT_G_Hair_Long_35"@, "Clothes"@, 'C');
                    lemma_char_absent_no_substring("NFT_G_Hair_Long_35"@, "Face"@, 'c');
                } else if i == 2 {
                    reveal_strlit("NFT_G_Hair_Long_36");
                    assert(!("NFT_G_Hair_Long_36"@).contains('C')) by {
                        assert forall|q: int| 0 <= q < "NFT_G_Hair_Long_36"@.len() implies "NFT_G_Hair_Long_36"@[q] != 'C' by {}
                    }
                    assert(!("NFT_G_Hair_Long_36"@).contains('c')) by {
                        assert forall|q: int| 0 <= q < "NFT_G_Hair_Long_36"@.len() implies "NFT_G_Hair_Long_36"@[q] != 'c' by {}
                    }
                    lemma_char_absent_no_substring("NFT_G_Hair_Long_36"@, "Clothes"@, 'C');
                    lemma_char_absent_no_substring("NFT_G_Hair_Long_36"@, "Face"@, 'c');
                }
            },
            Rarity::Epic => {
                if i == 0 {
                    reveal_strlit("NFT_G_Hair_Long_1");
                    assert(!("NFT_G_Hair_Long_1"@).contains('C')) by {
                        assert forall|q: int| 0 <= q < "NFT_G_Hair_Long_1"@.len() implies "NFT_G_Hair_Long_1"@[q] != 'C' by {}
                    }
                    assert(!("NFT_G_Hair_Long_1"@).contains('c')) by {
                        assert forall|q: int| 0 <= q < "NFT_G_Hair_Long_1"@.len() implies "NFT_G_Hair_Long_1"@[q] != 'c' by {}
                    }
                    lemma_char_absent_no_substring("NFT_G_Hair_Long_1"@, "Clothes"@, 'C');
                    lemma_char_absent_no_substring("NFT_G_Hair_Long_1"@, "Face"@, 'c');
                } else if i == 1 {
                    reveal_strlit("NFT_G_Hair_Long_2");
                    assert(!("NFT_G_Hair_Long_2"@).contains('C')) by {
                        assert forall|q: int| 0 <= q < "NFT_G_Hair_Long_2"@.len() implies "NFT_G_Hair_Long_2"@[q] != 'C' by {}
                    }
                    assert(!("NFT_G_Hair_Long_2"@).contains('c')) by {
                        assert forall|q: int| 0 <= q < "NFT_G_Hair_Long_2"@.len() implies "NFT_G_Hair_Long_2"@[q] != 'c' by {}
                    }
                    lemma_char_absent_no_substring("NFT_G_Hair_Long_2"@, "Clothes"@, 'C');
                    lemma_char_absent_no_substring("NFT_G_Hair_Long_2"@, "Face"@, 'c');
                } else if i == 2 {
                    reveal_strlit("NFT_G_Hair_Long_3");
                    assert(!("NFT_G_Hair_Long_3"@).contains('C')) by {
                        assert forall|q: int| 0 <= q < "NFT_G_Hair_Long_3"@.len() implies "NFT_G_Hair_Long_3"@[q] != 'C' by {}
                    }
                    assert(!("NFT_G_Hair_Long_3"@).contains('c')) by {
                        assert forall|q: int| 0 <= q < "NFT_G_Hair_Long_3"@.len() implies "NFT_G_Hair_Long_3"@[q] != 'c' by {}
                    }
                    lemma_char_absent_no_substring("NFT_G_Hair_Long_3"@, "Clothes"@, 'C');
                    lemma_char_absent_no_substring("NFT_G_Hair_Long_3"@, "Face"@, 'c');
                } else if i == 3 {
                    reveal_strlit("NFT_G_Hair_Long_11");
                    assert(!("NFT_G_Hair_Long_11"@).contains('C')) by {
                        assert forall|q: int| 0 <= q < "NFT_G_Hair_Long_11"@.len() implies "NFT_G_Hair_Long_11"@[q] != 'C' by {}
                    }
                    assert(!("NFT_G_Hair_Long_11"@).contains('c')) by {
                        assert forall|q: int| 0 <= q < "NFT_G_Hair_Long_11"@.len() implies "NFT_G_Hair_Long_11"@[q] != 'c' by {}
                    }
                    lemma_char_absent_no_substring("NFT_G_Hair_Long_11"@, "Clothes"@, 'C');
                    lemma_char_absent_no_substring("NFT_G_Hair_Long_11"@, "Face"@, 'c');
                } else if i == 4 {
                    reveal_strlit("NFT_G_Hair_Long_12");
                    assert(!("NFT_G_Hair_Long_12"@).contains('C')) by {
                        assert forall|q: int| 0 <= q < "NFT_G_Hair_Long_12"@.len() implies "NFT_G_Hair_Long_12"@[q] != 'C' by {}
                    }
                    assert(!("NFT_G_Hair_Long_12"@).contains('c')) by {
                        assert forall|q: int| 0 <= q < "NFT_G_Hair_Long_12"@.len() implies "NFT_G_Hair_Long_12"@[q] != 'c' by {}
                    }
                    lemma_char_absent_no_substring("NFT_G_Hair_Long_12"@, "Clothes"@, 'C');
                    lemma_char_absent_no_substring("NFT_G_Hair_Long_12"@, "Face"@, 'c');
                }
            },
            Rarity::Legendary => {
                if i == 0 {
                    reveal_strlit("NFT_G_Hair_Long_43");
                    assert(!("NFT_G_Hair_Long_43"@).contains('C')) by {
                        assert forall|q: int| 0 <= q < "NFT_G_Hair_Long_43"@.len() implies "NFT_G_Hair_Long_43"@[q] != 'C' by {}
                    }
                    assert(!("NFT_G_Hair_Long_43"@).contains('c')) by {
                        assert forall|q: int| 0 <= q < "NFT_G_Hair_Long_43"@.len() implies "NFT_G_Hair_Long_43"@[q] != 'c' by {}
                    }
                    lemma_char_absent_no_substring("NFT_G_Hair_Long_43"@, "Clothes"@, 'C');
                    lemma_char_absent_no_substring("NFT_G_Hair_Long_43"@, "Face"@, 'c');
                } else if i == 1 {
                    reveal_strlit("NFT_G_Hair_Long_45");
                    assert(!("NFT_G_Hair_Long_45"@).contains('C')) by {
                        assert forall|q: int| 0 <= q < "NFT_G_Hair_Long_45"@.len() implies "NFT_G_Hair_Long_45"@[q] != 'C' by {}
                    }
                    assert(!("NFT_G_Hair_Long_45"@).contains('c')) by {
                        assert forall|q: int| 0 <= q < "NFT_G_Hair_Long_45"@.len() implies "NFT_G_Hair_Long_45"@[q] != 'c' by {}
                    }
                    lemma_char_absent_no_substring("NFT_G_Hair_Long_45"@, "Clothes"@, 'C');
                    lemma_char_absent_no_substring("NFT_G_Hair_Long_45"@, "Face"@, 'c');
                }
            },
            Rarity::Mythical => {
                if i == 0 {
                    reveal_strlit("NFT_G_Hair_Long_44");
                    assert(!("NFT_G_Hair_Long_44"@).contains('C')) by {
                        assert forall|q: int| 0 <= q < "NFT_G_Hair_Long_44"@.len() implies "NFT_G_Hair_Long_44"@[q] != 'C' by {}
                    }
                    assert(!("NFT_G_Hair_Long_44"@).contains('c')) by {
                        assert forall|q: int| 0 <= q < "NFT_G_Hair_Long_44"@.len() implies "NFT_G_Hair_Long_44"@[q] != 'c' by {}
                    }
                    lemma_char_absent_no_substring("NFT_G_Hair_Long_44"@, "Clothes"@, 'C');
                    lemma_char_absent_no_substring("NFT_G_Hair_Long_44"@, "Face"@, 'c');
                } else if i == 1 {
                    reveal_strlit("NFT_G_Hair_Long_46");
                    assert(!("NFT_G_Hair_Long_46"@).contains('C')) by {
                        assert forall|q: int| 0 <= q < "NFT_G_Hair_Long_46"@.len() implies "NFT_G_Hair_Long_46"@[q] != 'C' by {}
                    }
                    assert(!("NFT_G_Hair_Long_46"@).contains('c')) by {
                        assert forall|q: int| 0 <= q < "NFT_G_Hair_Long_46"@.len() implies "NFT_G_Hair_Long_46"@[q] != 'c' by {}
                    }
                    lemma_char_absent_no_substring("NFT_G_Hair_Long_46"@, "Clothes"@, 'C');
                    lemma_char_absent_no_substring("NFT_G_Hair_Long_46"@, "Face"@, 'c');
                }
            },
        },
    }
}

proof fn lemma_body_marker(r: Rarity, i: int)
    requires
        0 <= i < spec_body(r).len(),
    ensures
        !spec_has_substring(spec_body(r)[i], "Clothes"@),
        !spec_has_substring(spec_body(r)[i], "Face"@),
{
    reveal_strlit("Clothes");
    reveal_strlit("Face");
    assert("Clothes"@.contains('C')) by {
        assert("Clothes"@[0] == 'C');
    }
    assert("Face"@.contains('c')) by {
        assert("Face"@[2] == 'c');
    }
    match r {
        Rarity::Common => {
            if i == 0 {
                reveal_strlit("NFT_Body_1");
                assert(!("NFT_Body_1"@).contains('C')) by {
                    assert forall|q: int| 0 <= q < "NFT_Body_1"@.len() implies "NFT_Body_1"@[q] != 'C' by {}
                }
                assert(!("NFT_Body_1"@).contains('c')) by {
                    assert forall|q: int| 0 <= q < "NFT_Body_1"@.len() implies "NFT_Body_1"@[q] != 'c' by {}
                }
                lemma_char_absent_no_substring("NFT_Body_1"@, "Clothes"@, 'C');
                lemma_char_absent_no_substring("NFT_Body_1"@, "Face"@, 'c');
            } else if i == 1 {
                reveal_strlit("NFT_Body_2");
                assert(!("NFT_Body_2"@).contains('C')) by {
                    assert forall|q: int| 0 <= q < "NFT_Body_2"@.len() implies "NFT_Body_2"@[q] != 'C' by {}
                }
                assert(!("NFT_Body_2"@).contains('c')) by {
                    assert forall|q: int| 0 <= q < "NFT_Body_2"@.len() implies "NFT_Body_2"@[q] != 'c' by {}
                }
                lemma_char_absent_no_substring("NFT_Body_2"@, "Clothes"@, 'C');
                lemma_char_absent_no_substring("NFT_Body_2"@, "Face"@, 'c');
            } else if i == 2 {
                reveal_strlit("NFT_Body_3");
                assert(!("NFT_Body_3"@).contains('C')) by {
                    assert forall|q: int| 0 <= q < "NFT_Body_3"@.len() implies "NFT_Body_3"@[q] != 'C' by {}
                }
                assert(!("NFT_Body_3"@).contains('c')) by {
                    assert forall|q: int| 0 <= q < "NFT_Body_3"@.len() implies "NFT_Body_3"@[q] != 'c' by {}
                }
                lemma_char_absent_no_substring("NFT_Body_3"@, "Clothes"@, 'C');
                lemma_char_absent_no_substring("NFT_Body_3"@, "Face"@, 'c');
            }
        },
        Rarity::Uncommon => {
        },
        Rarity::Rare => {
        },
        Rarity::Epic => {
            if i == 0 {
                reveal_strlit("NFT_Body_4");
                assert(!("NFT_Body_4"@).contains('C')) by {
                    assert forall|q: int| 0 <= q < "NFT_Body_4"@.len() implies "NFT_Body_4"@[q] != 'C' by {}
                }
                assert(!("NFT_Body_4"@).contains('c')) by {
                    assert forall|q: int| 0 <= q < "NFT_Body_4"@.len() implies "NFT_Body_4"@[q] != 'c' by {}
                }
                lemma_char_absent_no_substring("NFT_Body_4"@, "Clothes"@, 'C');
                lemma_char_absent_no_substring("NFT_Body_4"@, "Face"@, 'c');
            }
        },
        Rarity::Legendary => {
        },
        Rarity::Mythical => {
        },
    }
}

proof fn lemma_clothes_marker(g: Gender, r: Rarity, i: int)
    requires
        0 <= i < spec_clothes(g, r).len(),
    ensures
        spec_has_substring(spec_clothes(g, r)[i], "Clothes"@),
        !spec_has_substring(spec_clothes(g, r)[i], "Face"@),
{
    reveal_strlit("Clothes");
    reveal_strlit("Face");
    assert("Clothes"@.contains('C')) by {
        assert("Clothes"@[0] == 'C');
    }
    assert("Face"@.contains('c')) by {
        assert("Face"@[2] == 'c');
    }
    match g {
        Gender::Boy => match r {
            Rarity::Common => {
                if i == 0 {
                    reveal_strlit("NFT_B_Clothes_1");
                    assert(!("NFT_B_Clothes_1"@).contains('c')) by {
                        assert forall|q: int| 0 <= q < "NFT_B_Clothes_1"@.len() implies "NFT_B_Clothes_1"@[q] != 'c' by {}
                    }
                    lemma_char_absent_no_substring("NFT_B_Clothes_1"@, "Face"@, 'c');
                    assert("NFT_B_Clothes_1"@.subrange(6, 6 + "Clothes"@.len() as int) =~= "Clothes"@);
                    assert(spec_has_substring("NFT_B_Clothes_1"@, "Clothes"@));
                } else if i == 1 {
                    reveal_strlit("NFT_B_Clothes_2");
                    assert(!("NFT_B_Clothes_2"@).contains('c')) by {
                        assert forall|q: int| 0 <= q < "NFT_B_Clothes_2"@.len() implies "NFT_B_Clothes_2"@[q] != 'c' by {}
                    }
                    lemma_char_absent_no_substring("NFT_B_Clothes_2"@, "Face"@, 'c');
                    assert("NFT_B_Clothes_2"@.subrange(6, 6 + "Clothes"@.len() as int) =~= "Clothes"@);
                    assert(spec_has_substring("NFT_B_Clothes_2"@, "Clothes"@));
                } else if i == 2 {
                    reveal_strlit("NFT_B_Clothes_3");
                    assert(!("NFT_B_Clothes_3"@).contains('c')) by {
                        assert forall|q: int| 0 <= q < "NFT_B_Clothes_3"@.len() implies "NFT_B_Clothes_3"@[q] != 'c' by {}
                    }
                    lemma_char_absent_no_substring("NFT_B_Clothes_3"@, "Face"@, 'c');
                    assert("NFT_B_Clothes_3"@.subrange(6, 6 + "Clothes"@.len() as int) =~= "Clothes"@);
                    assert(spec_has_substring("NFT_B_Clothes_3"@, "Clothes"@));
                } else if i == 3 {
                    reveal_strlit("NFT_B_Clothes_4");
                    assert(!("NFT_B_Clothes_4"@).contains('c')) by {
                        assert forall|q: int| 0 <= q < "NFT_B_Clothes_4"@.len() implies "NFT_B_Clothes_4"@[q] != 'c' by {}
                    }
                    lemma_char_absent_no_substring("NFT_B_Clothes_4"@, "Face"@, 'c');
                    assert("NFT_B_Clothes_4"@.subrange(6, 6 + "Clothes"@.len() as int) =~= "Clothes"@);
                    assert(spec_has_substring("NFT_B_Clothes_4"@, "Clothes"@));
                } else if i == 4 {
                    reveal_strlit("NFT_B_Clothes_5");
                    assert(!("NFT_B_Clothes_5"@).contains('c')) by {
                        assert forall|q: int| 0 <= q < "NFT_B_Clothes_5"@.len() implies "NFT_B_Clothes_5"@[q] != 'c' by {}
                    }
                    lemma_char_absent_no_substring("NFT_B_Clothes_5"@, "Face"@, 'c');
                    assert("NFT_B_Clothes_5"@.subrange(6, 6 + "Clothes"@.len() as int) =~= "Clothes"@);
                    assert(spec_has_substring("NFT_B_Clothes_5"@, "Clothes"@));
                } else if i == 5 {
                    reveal_strlit("NFT_B_Clothes_6");
                    assert(!("NFT_B_Clothes_6"@).contains('c')) by {
                        assert forall|q: int| 0 <= q < "NFT_B_Clothes_6"@.len() implies "NFT_B_Clothes_6"@[q] != 'c' by {}
                    }
                    lemma_char_absent_no_substring("NFT_B_Clothes_6"@, "Face"@, 'c');
                    assert("NFT_B_Clothes_6"@.subrange(6, 6 + "Clothes"@.len() as int) =~= "Clothes"@);
                    assert(spec_has_substring("NFT_B_Clothes_6"@, "Clothes"@));
                }
            },
            Rarity::Uncommon => {
                if i == 0 {
                    reveal_strlit("NFT_B_Clothes_7");
                    assert(!("NFT_B_Clothes_7"@).contains('c')) by {
                        assert forall|q: int| 0 <= q < "NFT_B_Clothes_7"@.len() implies "NFT_B_Clothes_7"@[q] != 'c' by {}
                    }
                    lemma_char_absent_no_substring("NFT_B_Clothes_7"@, "Face"@, 'c');
                    assert("NFT_B_Clothes_7"@.subrange(6, 6 + "Clothes"@.len() as int) =~= "Clothes"@);
                    assert(spec_has_substring("NFT_B_Clothes_7"@, "Clothes"@));
                } else if i == 1 {
                    reveal_strlit("NFT_B_Clothes_8");
                    assert(!("NFT_B_Clothes_8"@).contains('c')) by {
                        assert forall|q: int| 0 <= q < "NFT_B_Clothes_8"@.len() implies "NFT_B_Clothes_8"@[q] != 'c' by {}
                    }
                    lemma_char_absent_no_substring("NFT_B_Clothes_8"@, "Face"@, 'c');
                    assert("NFT_B_Clothes_8"@.subrange(6, 6 + "Clothes"@.len() as int) =~= "Clothes"@);
                    assert(spec_has_substring("NFT_B_Clothes_8"@, "Clothes"@));
                } else if i == 2 {
                    reveal_strlit("NFT_B_Clothes_9");
                    assert(!("NFT_B_Clothes_9"@).contains('c')) by {
                        assert forall|q: int| 0 <= q < "NFT_B_Clothes_9"@.len() implies "NFT_B_Clothes_9"@[q] != 'c' by {}
                    }
                    lemma_char_absent_no_substring("NFT_B_Clothes_9"@, "Face"@, 'c');
                    assert("NFT_B_Clothes_9"@.subrange(6, 6 + "Clothes"@.len() as int) =~= "Clothes"@);
                    assert(spec_has_substring("NFT_B_Clothes_9"@, "Clothes"@));
                }
            },
            Rarity::Rare => {
                if i == 0 {
                    reveal_strlit("NFT_B_Clothes_10");
                    assert(!("NFT_B_Clothes_10"@).contains('c')) by {
                        assert forall|q: int| 0 <= q < "NFT_B_Clothes_10"@.len() implies "NFT_B_Clothes_10"@[q] != 'c' by {}
                    }
                    lemma_char_absent_no_substring("NFT_B_Clothes_10"@, "Face"@, 'c');
                    assert("NFT_B_Clothes_10"@.subrange(6, 6 + "Clothes"@.len() as int) =~= "Clothes"@);
                    assert(spec_has_substring("NFT_B_Clothes_10"@, "Clothes"@));
                } else if i == 1 {
                    reveal_strlit("NFT_B_Clothes_12");
                    assert(!("NFT_B_Clothes_12"@).contains('c')) by {
                        assert forall|q: int| 0 <= q < "NFT_B_Clothes_12"@.len() implies "NFT_B_Clothes_12"@[q] != 'c' by {}
                    }
                    lemma_char_absent_no_substring("NFT_B_Clothes_12"@, "Face"@, 'c');
                    assert("NFT_B_Clothes_12"@.subrange(6, 6 + "Clothes"@.len() as int) =~= "Clothes"@);
                    assert(spec_has_substring("NFT_B_Clothes_12"@, "Clothes"@));
                } else if i == 2 {
                    reveal_strlit("NFT_B_Clothes_17");
                    assert(!("NFT_B_Clothes_17"@).contains('c')) by {
                        assert forall|q: int| 0 <= q < "NFT_B_Clothes_17"@.len() implies "NFT_B_Clothes_17"@[q] != 'c' by {}
                    }
                    lemma_char_absent_no_substring("NFT_B_Clothes_17"@, "Face"@, 'c');
                    assert("NFT_B_Clothes_17"@.subrange(6, 6 + "Clothes"@.len() as int) =~= "Clothes"@);
                    assert(spec_has_substring("NFT_B_Clothes_17"@, "Clothes"@));
                }
            },
            Rarity::Epic => {
                if i == 0 {
                    reveal_strlit("NFT_B_Clothes_11");
                    assert(!("NFT_B_Clothes_11"@).contains('c')) by {
                        assert forall|q: int| 0 <= q < "NFT_B_Clothes_11"@.len() implies "NFT_B_Clothes_11"@[q] != 'c' by {}
                    }
                    lemma_char_absent_no_substring("NFT_B_Clothes_11"@, "Face"@, 'c');
                    assert("NFT_B_Clothes_11"@.subrange(6, 6 + "Clothes"@.len() as int) =~= "Clothes"@);
                    assert(spec_has_substring("NFT_B_Clothes_11"@, "Clothes"@));
                } else if i == 1 {
                    reveal_strlit("NFT_B_Clothes_13");
                    assert(!("NFT_B_Clothes_13"@).contains('c')) by {
                        assert forall|q: int| 0 <= q < "NFT_B_Clothes_13"@.len() implies "NFT_B_Clothes_13"@[q] != 'c' by {}
                    }
                    lemma_char_absent_no_substring("NFT_B_Clothes_13"@, "Face"@, 'c');
                    assert("NFT_B_Clothes_13"@.subrange(6, 6 + "Clothes"@.len() as int) =~= "Clothes"@);
                    assert(spec_has_substring("NFT_B_Clothes_13"@, "Clothes"@));
                } else if i == 2 {
                    reveal_strlit("NFT_B_Clothes_14");
                    assert(!("NFT_B_Clothes_14"@).contains('c')) by {
                        assert forall|q: int| 0 <= q < "NFT_B_Clothes_14"@.len() implies "NFT_B_Clothes_14"@[q] != 'c' by {}
                    }
                    lemma_char_absent_no_substring("NFT_B_Clothes_14"@, "Face"@, 'c');
                    assert("NFT_B_Clothes_14"@.subrange(6, 6 + "Clothes"@.len() as int) =~= "Clothes"@);
                    assert(spec_has_substring("NFT_B_Clothes_14"@, "Clothes"@));
                } else if i == 3 {
                    reveal_strlit("NFT_B_Clothes_15");
                    assert(!("NFT_B_Clothes_15"@).contains('c')) by {
                        assert forall|q: int| 0 <= q < "NFT_B_Clothes_15"@.len() implies "NFT_B_Clothes_15"@[q] != 'c' by {}
                    }
                    lemma_char_absent_no_substring("NFT_B_Clothes_15"@, "Face"@, 'c');
                    assert("NFT_B_Clothes_15"@.subrange(6, 6 + "Clothes"@.len() as int) =~= "Clothes"@);
                    assert(spec_has_substring("NFT_B_Clothes_15"@, "Clothes"@));
                } else if i == 4 {
                    reveal_strlit("NFT_B_Clothes_16");
                    assert(!("NFT_B_Clothes_16"@).contains('c')) by {
                        assert forall|q: int| 0 <= q < "NFT_B_Clothes_16"@.len() implies "NFT_B_Clothes_16"@[q] != 'c' by {}
                    }
                    lemma_char_absent_no_substring("NFT_B_Clothes_16"@, "Face"@, 'c');
                    assert("NFT_B_Clothes_16"@.subrange(6, 6 + "Clothes"@.len() as int) =~= "Clothes"@);
                    assert(spec_has_substring("NFT_B_Clothes_16"@, "Clothes"@));
                }
            },
            Rarity::Legendary => {
                if i == 0 {
                    reveal_strlit("NFT_B_Clothes_18");
                    assert(!("NFT_B_Clothes_18"@).contains('c')) by {
                        assert forall|q: int| 0 <= q < "NFT_B_Clothes_18"@.len() implies "NFT_B_Clothes_18"@[q] != 'c' by {}
                    }
                    lemma_char_absent_no_substring("NFT_B_Clothes_18"@, "Face"@, 'c');
                    assert("NFT_B_Clothes_18"@.subrange(6, 6 + "Clothes"@.len() as int) =~= "Clothes"@);
                    assert(spec_has_substring("NFT_B_Clothes_18"@, "Clothes"@));
                } else if i == 1 {
                    reveal_strlit("NFT_B_Clothes_19");
                    assert(!("NFT_B_Clothes_19"@).contains('c')) by {
                        assert forall|q: int| 0 <= q < "NFT_B_Clothes_19"@.len() implies "NFT_B_Clothes_19"@[q] != 'c' by {}
                    }
                    lemma_char_absent_no_substring("NFT_B_Clothes_19"@, "Face"@, 'c');
                    assert("NFT_B_Clothes_19"@.subrange(6, 6 + "Clothes"@.len() as int) =~= "Clothes"@);
                    assert(spec_has_substring("NFT_B_Clothes_19"@, "Clothes"@));
                }
            },
            Rarity::Mythical => {
                if i == 0 {
                    reveal_strlit("NFT_B_Clothes_20");
                    assert(!("NFT_B_Clothes_20"@).contains('c')) by {
                        assert forall|q: int| 0 <= q < "NFT_B_Clothes_20"@.len() implies "NFT_B_Clothes_20"@[q] != 'c' by {}
                    }
                    lemma_char_absent_no_substring("NFT_B_Clothes_20"@, "Face"@, 'c');
                    assert("NFT_B_Clothes_20"@.subrange(6, 6 + "Clothes"@.len() as int) =~= "Clothes"@);
                    assert(spec_has_substring("NFT_B_Clothes_20"@, "Clothes"@));
                } else if i == 1 {
                    reveal_strlit("NFT_B_Clothes_21");
                    assert(!("NFT_B_Clothes_21"@).contains('c')) by {
                        assert forall|q: int| 0 <= q < "NFT_B_Clothes_21"@.len() implies "NFT_B_Clothes_21"@[q] != 'c' by {}
                    }
                    lemma_char_absent_no_substring("NFT_B_Clothes_21"@, "Face"@, 'c');
                    assert("NFT_B_Clothes_21"@.subrange(6, 6 + "Clothes"@.len() as int) =~= "Clothes"@);
                    assert(spec_has_substring("NFT_B_Clothes_21"@, "Clothes"@));
                }
            },
        },
        Gender::Girl => match r {
            Rarity::Common => {
                if i == 0 {
                    reveal_strlit("NFT_G_Clothes_1");
                    assert(!("NFT_G_Clothes_1"@).contains('c')) by {
                        assert forall|q: int| 0 <= q < "NFT_G_Clothes_1"@.len() implies "NFT_G_Clothes_1"@[q] != 'c' by {}
                    }
                    lemma_char_absent_no_substring("NFT_G_Clothes_1"@, "Face"@, 'c');
                    assert("NFT_G_Clothes_1"@.subrange(6, 6 + "Clothes"@.len() as int) =~= "Clothes"@);
                    assert(spec_has_substring("NFT_G_Clothes_1"@, "Clothes"@));
                } else if i == 1 {
                    reveal_strlit("NFT_G_Clothes_2");
                    assert(!("NFT_G_Clothes_2"@).contains('c')) by {
                        assert forall|q: int| 0 <= q < "NFT_G_Clothes_2"@.len() implies "NFT_G_Clothes_2"@[q] != 'c' by {}
                    }
                    lemma_char_absent_no_substring("NFT_G_Clothes_2"@, "Face"@, 'c');
                    assert("NFT_G_Clothes_2"@.subrange(6, 6 + "Clothes"@.len() as int) =~= "Clothes"@);
                    assert(spec_has_substring("NFT_G_Clothes_2"@, "Clothes"@));
                } else if i == 2 {
                    reveal_strlit("NFT_G_Clothes_3");
                    assert(!("NFT_G_Clothes_3"@).contains('c')) by {
                        assert forall|q: int| 0 <= q < "NFT_G_Clothes_3"@.len() implies "NFT_G_Clothes_3"@[q] != 'c' by {}
                    }
                    lemma_char_absent_no_substring("NFT_G_Clothes_3"@, "Face"@, 'c');
                    assert("NFT_G_Clothes_3"@.subrange(6, 6 + "Clothes"@.len() as int) =~= "Clothes"@);
                    assert(spec_has_substring("NFT_G_Clothes_3"@, "Clothes"@));
                } else if i == 3 {
                    reveal_strlit("NFT_G_Clothes_4");
                    assert(!("NFT_G_Clothes_4"@).contains('c')) by {
                        assert forall|q: int| 0 <= q < "NFT_G_Clothes_4"@.len() implies "NFT_G_Clothes_4"@[q] != 'c' by {}
                    }
                    lemma_char_absent_no_substring("NFT_G_Clothes_4"@, "Face"@, 'c');
                    assert("NFT_G_Clothes_4"@.subrange(6, 6 + "Clothes"@.len() as int) =~= "Clothes"@);
                    assert(spec_has_substring("NFT_G_Clothes_4"@, "Clothes"@));
                } else if i == 4 {
                    reveal_strlit("NFT_G_Clothes_5");
                    assert(!("NFT_G_Clothes_5"@).contains('c')) by {
                        assert forall|q: int| 0 <= q < "NFT_G_Clothes_5"@.len() implies "NFT_G_Clothes_5"@[q] != 'c' by {}
                    }
                    lemma_char_absent_no_substring("NFT_G_Clothes_5"@, "Face"@, 'c');
                    assert("NFT_G_Clothes_5"@.subrange(6, 6 + "Clothes"@.len() as int) =~= "Clothes"@);
                    assert(spec_has_substring("NFT_G_Clothes_5"@, "Clothes"@));
                } else if i == 5 {
                    reveal_strlit("NFT_G_Clothes_6");
                    assert(!("NFT_G_Clothes_6"@).contains('c')) by {
                        assert forall|q: int| 0 <= q < "NFT_G_Clothes_6"@.len() implies "NFT_G_Clothes_6"@[q] != 'c' by {}
                    }
                    lemma_char_absent_no_substring("NFT_G_Clothes_6"@, "Face"@, 'c');
                    assert("NFT_G_Clothes_6"@.subrange(6, 6 + "Clothes"@.len() as int) =~= "Clothes"@);
                    assert(spec_has_substring("NFT_G_Clothes_6"@, "Clothes"@));
                }
            },
            Rarity::Uncommon => {
                if i == 0 {
                    reveal_strlit("NFT_G_Clothes_7");
                    assert(!("NFT_G_Clothes_7"@).contains('c')) by {
                        assert forall|q: int| 0 <= q < "NFT_G_Clothes_7"@.len() implies "NFT_G_Clothes_7"@[q] != 'c' by {}
                    }
                    lemma_char_absent_no_substring("NFT_G_Clothes_7"@, "Face"@, 'c');
                    assert("NFT_G_Clothes_7"@.subrange(6, 6 + "Clothes"@.len() as int) =~= "Clothes"@);
                    assert(spec_has_substring("NFT_G_Clothes_7"@, "Clothes"@));
                } else if i == 1 {
                    reveal_strlit("NFT_G_Clothes_8");
                    assert(!("NFT_G_Clothes_8"@).contains('c')) by {
                        assert forall|q: int| 0 <= q < "NFT_G_Clothes_8"@.len() implies "NFT_G_Clothes_8"@[q] != 'c' by {}
                    }
                    lemma_char_absent_no_substring("NFT_G_Clothes_8"@, "Face"@, 'c');
                    assert("NFT_G_Clothes_8"@.subrange(6, 6 + "Clothes"@.len() as int) =~= "Clothes"@);
                    assert(spec_has_substring("NFT_G_Clothes_8"@, "Clothes"@));
                } else if i == 2 {
                    reveal_strlit("NFT_G_Clothes_12");
                    assert(!("NFT_G_Clothes_12"@).contains('c')) by {
                        assert forall|q: int| 0 <= q < "NFT_G_Clothes_12"@.len() implies "NFT_G_Clothes_12"@[q] != 'c' by {}
                    }
                    lemma_char_absent_no_substring("NFT_G_Clothes_12"@, "Face"@, 'c');
                    assert("NFT_G_Clothes_12"@.subrange(6, 6 + "Clothes"@.len() as int) =~= "Clothes"@);
                    assert(spec_has_substring("NFT_G_Clothes_12"@, "Clothes"@));
                } else if i == 3 {
                    reveal_strlit("NFT_G_Clothes_13");
                    assert(!("NFT_G_Clothes_13"@).contains('c')) by {
                        assert forall|q: int| 0 <= q < "NFT_G_Clothes_13"@.len() implies "NFT_G_Clothes_13"@[q] != 'c' by {}
                    }
                    lemma_char_absent_no_substring("NFT_G_Clothes_13"@, "Face"@, 'c');
                    assert("NFT_G_Clothes_13"@.subrange(6, 6 + "Clothes"@.len() as int) =~= "Clothes"@);
                    assert(spec_has_substring("NFT_G_Clothes_13"@, "Clothes"@));
                } else if i == 4 {
                    reveal_strlit("NFT_G_Clothes_14");
                    assert(!("NFT_G_Clothes_14"@).contains('c')) by {
                        assert forall|q: int| 0 <= q < "NFT_G_Clothes_14"@.len() implies "NFT_G_Clothes_14"@[q] != 'c' by {}
                    }
                    lemma_char_absent_no_substring("NFT_G_Clothes_14"@, "Face"@, 'c');
                    assert("NFT_G_Clothes_14"@.subrange(6, 6 + "Clothes"@.len() as int) =~= "Clothes"@);
                    assert(spec_has_substring("NFT_G_Clothes_14"@, "Clothes"@));
                }
            },
            Rarity::Rare => {
                if i == 0 {
                    reveal_strlit("NFT_G_Clothes_9");
                    assert(!("NFT_G_Clothes_9"@).contains('c')) by {
                        assert forall|q: int| 0 <= q < "NFT_G_Clothes_9"@.len() implies "NFT_G_Clothes_9"@[q] != 'c' by {}
                    }
                    lemma_char_absent_no_substring("NFT_G_Clothes_9"@, "Face"@, 'c');
                    assert("NFT_G_Clothes_9"@.subrange(6, 6 + "Clothes"@.len() as int) =~= "Clothes"@);
                    assert(spec_has_substring("NFT_G_Clothes_9"@, "Clothes"@));
                } else if i == 1 {
                    reveal_strlit("NFT_G_Clothes_10");
                    assert(!("NFT_G_Clothes_10"@).contains('c')) by {
                        assert forall|q: int| 0 <= q < "NFT_G_Clothes_10"@.len() implies "NFT_G_Clothes_10"@[q] != 'c' by {}
                    }
                    lemma_char_absent_no_substring("NFT_G_Clothes_10"@, "Face"@, 'c');
                    assert("NFT_G_Clothes_10"@.subrange(6, 6 + "Clothes"@.len() as int) =~= "Clothes"@);
                    assert(spec_has_substring("NFT_G_Clothes_10"@, "Clothes"@));
                }
            },
            Rarity::Epic => {
                if i == 0 {
                    reveal_strlit("NFT_G_Clothes_11");
                    assert(!("NFT_G_Clothes_11"@).contains('c')) by {
                        assert forall|q: int| 0 <= q < "NFT_G_Clothes_11"@.len() implies "NFT_G_Clothes_11"@[q] != 'c' by {}
                    }
                    lemma_char_absent_no_substring("NFT_G_Clothes_11"@, "Face"@, 'c');
                    assert("NFT_G_Clothes_11"@.subrange(6, 6 + "Clothes"@.len() as int) =~= "Clothes"@);
                    assert(spec_has_substring("NFT_G_Clothes_11"@, "Clothes"@));
                } else if i == 1 {
                    reveal_strlit("NFT_G_Clothes_15");
                    assert(!("NFT_G_Clothes_15"@).contains('c')) by {
                        assert forall|q: int| 0 <= q < "NFT_G_Clothes_15"@.len() implies "NFT_G_Clothes_15"@[q] != 'c' by {}
                    }
                    lemma_char_absent_no_substring("NFT_G_Clothes_15"@, "Face"@, 'c');
                    assert("NFT_G_Clothes_15"@.subrange(6, 6 + "Clothes"@.len() as int) =~= "Clothes"@);
                    assert(spec_has_substring("NFT_G_Clothes_15"@, "Clothes"@));
                } else if i == 2 {
                    reveal_strlit("NFT_G_Clothes_16");
                    assert(!("NFT_G_Clothes_16"@).contains('c')) by {
                        assert forall|q: int| 0 <= q < "NFT_G_Clothes_16"@.len() implies "NFT_G_Clothes_16"@[q] != 'c' by {}
                    }
                    lemma_char_absent_no_substring("NFT_G_Clothes_16"@, "Face"@, 'c');
                    assert("NFT_G_Clothes_16"@.subrange(6, 6 + "Clothes"@.len() as int) =~= "Clothes"@);
                    assert(spec_has_substring("NFT_G_Clothes_16"@, "Clothes"@));
                } else if i == 3 {
                    reveal_strlit("NFT_G_Clothes_17");
                    assert(!("NFT_G_Clothes_17"@).contains('c')) by {
                        assert forall|q: int| 0 <= q < "NFT_G_Clothes_17"@.len() implies "NFT_G_Clothes_17"@[q] != 'c' by {}
                    }
                    lemma_char_absent_no_substring("NFT_G_Clothes_17"@, "Face"@, 'c');
                    assert("NFT_G_Clothes_17"@.subrange(6, 6 + "Clothes"@.len() as int) =~= "Clothes"@);
                    assert(spec_has_substring("NFT_G_Clothes_17"@, "Clothes"@));
                }
            },
            Rarity::Legendary => {
                if i == 0 {
                    reveal_strlit("NFT_G_Clothes_18");
                    assert(!("NFT_G_Clothes_18"@).contains('c')) by {
                        assert forall|q: int| 0 <= q < "NFT_G_Clothes_18"@.len() implies "NFT_G_Clothes_18"@[q] != 'c' by {}
                    }
                    lemma_char_absent_no_substring("NFT_G_Clothes_18"@, "Face"@, 'c');
                    assert("NFT_G_Clothes_18"@.subrange(6, 6 + "Clothes"@.len() as int) =~= "Clothes"@);
                    assert(spec_has_substring("NFT_G_Clothes_18"@, "Clothes"@));
                } else if i == 1 {
                    reveal_strlit("NFT_G_Clothes_19");
                    assert(!("NFT_G_Clothes_19"@).contains('c')) by {
                        assert forall|q: int| 0 <= q < "NFT_G_Clothes_19"@.len() implies "NFT_G_Clothes_19"@[q] != 'c' by {}
                    }
                    lemma_char_absent_no_substring("NFT_G_Clothes_19"@, "Face"@, 'c');
                    assert("NFT_G_Clothes_19"@.subrange(6, 6 + "Clothes"@.len() as int) =~= "Clothes"@);
                    assert(spec_has_substring("NFT_G_Clothes_19"@, "Clothes"@));
                }
            },
            Rarity::Mythical => {
                if i == 0 {
                    reveal_strlit("NFT_G_Clothes_20");
                    assert(!("NFT_G_Clothes_20"@).contains('c')) by {
                        assert forall|q: int| 0 <= q < "NFT_G_Clothes_20"@.len() implies "NFT_G_Clothes_20"@[q] != 'c' by {}
                    }
                    lemma_char_absent_no_substring("NFT_G_Clothes_20"@, "Face"@, 'c');
                    assert("NFT_G_Clothes_20"@.subrange(6, 6 + "Clothes"@.len() as int) =~= "Clothes"@);
                    assert(spec_has_substring("NFT_G_Clothes_20"@, "Clothes"@));
                } else if i == 1 {
                    reveal_strlit("NFT_G_Clothes_21");
                    assert(!("NFT_G_Clothes_21"@).contains('c')) by {
                        assert forall|q: int| 0 <= q < "NFT_G_Clothes_21"@.len() implies "NFT_G_Clothes_21"@[q] != 'c' by {}
                    }
                    lemma_char_absent_no_substring("NFT_G_Clothes_21"@, "Face"@, 'c');
                    assert("NFT_G_Clothes_21"@.subrange(6, 6 + "Clothes"@.len() as int) =~= "Clothes"@);
                    assert(spec_has_substring("NFT_G_Clothes_21"@, "Clothes"@));
                }
            },
        },
    }
}

proof fn lemma_face_marker(g: Gender, r: Rarity, i: int)
    requires
        0 <= i < spec_face(g, r).len(),
    ensures
        spec_has_substring(spec_face(g, r)[i], "Face"@),
        !spec_has_substring(spec_face(g, r)[i], "Clothes"@),
{
    reveal_strlit("Clothes");
    reveal_strlit("Face");
    assert("Clothes"@.contains('C')) by {
        assert("Clothes"@[0] == 'C');
    }
    assert("Face"@.contains('c')) by {
        assert("Face"@[2] == 'c');
    }
    match g {
        Gender::Boy => match r {
            Rarity::Common => {
                if i == 0 {
                    reveal_strlit("NFT_B_Face_1");
                    assert(!("NFT_B_Face_1"@).contains('C')) by {
                        assert forall|q: int| 0 <= q < "NFT_B_Face_1"@.len() implies "NFT_B_Face_1"@[q] != 'C' by {}
                    }
                    lemma_char_absent_no_substring("NFT_B_Face_1"@, "Clothes"@, 'C');
                    assert("NFT_B_Face_1"@.subrange(6, 6 + "Face"@.len() as int) =~= "Face"@);
                    assert(spec_has_substring("NFT_B_Face_1"@, "Face"@));
                } else if i == 1 {
                    reveal_strlit("NFT_B_Face_2");
                    assert(!("NFT_B_Face_2"@).contains('C')) by {
                        assert forall|q: int| 0 <= q < "NFT_B_Face_2"@.len() implies "NFT_B_Face_2"@[q] != 'C' by {}
                    }
                    lemma_char_absent_no_substring("NFT_B_Face_2"@, "Clothes"@, 'C');
                    assert("NFT_B_Face_2"@.subrange(6, 6 + "Face"@.len() as int) =~= "Face"@);
                    assert(spec_has_substring("NFT_B_Face_2"@, "Face"@));
                } else if i == 2 {
                    reveal_strlit("NFT_B_Face_3");
                    assert(!("NFT_B_Face_3"@).contains('C')) by {
                        assert forall|q: int| 0 <= q < "NFT_B_Face_3"@.len() implies "NFT_B_Face_3"@[q] != 'C' by {}
                    }
                    lemma_char_absent_no_substring("NFT_B_Face_3"@, "Clothes"@, 'C');
                    assert("NFT_B_Face_3"@.subrange(6, 6 + "Face"@.len() as int) =~= "Face"@);
                    assert(spec_has_substring("NFT_B_Face_3"@, "Face"@));
                } else if i == 3 {
                    reveal_strlit("NFT_B_Face_4");
                    assert(!("NFT_B_Face_4"@).contains('C')) by {
                        assert forall|q: int| 0 <= q < "NFT_B_Face_4"@.len() implies "NFT_B_Face_4"@[q] != 'C' by {}
                    }
                    lemma_char_absent_no_substring("NFT_B_Face_4"@, "Clothes"@, 'C');
                    assert("NFT_B_Face_4"@.subrange(6, 6 + "Face"@.len() as int) =~= "Face"@);
                    assert(spec_has_substring("NFT_B_Face_4"@, "Face"@));
                } else if i == 4 {
                    reveal_strlit("NFT_B_Face_13");
                    assert(!("NFT_B_Face_13"@).contains('C')) by {
                        assert forall|q: int| 0 <= q < "NFT_B_Face_13"@.len() implies "NFT_B_Face_13"@[q] != 'C' by {}
                    }
                    lemma_char_absent_no_substring("NFT_B_Face_13"@, "Clothes"@, 'C');
                    assert("NFT_B_Face_13"@.subrange(6, 6 + "Face"@.len() as int) =~= "Face"@);
                    assert(spec_has_substring("NFT_B_Face_13"@, "Face"@));
                } else if i == 5 {
                    reveal_strlit("NFT_B_Face_14");
                    assert(!("NFT_B_Face_14"@).contains('C')) by {
                        assert forall|q: int| 0 <= q < "NFT_B_Face_14"@.len() implies "NFT_B_Face_14"@[q] != 'C' by {}
                    }
                    lemma_char_absent_no_substring("NFT_B_Face_14"@, "Clothes"@, 'C');
                    assert("NFT_B_Face_14"@.subrange(6, 6 + "Face"@.len() as int) =~= "Face"@);
                    assert(spec_has_substring("NFT_B_Face_14"@, "Face"@));
                }
            },
            Rarity::Uncommon => {
                if i == 0 {
                    reveal_strlit("NFT_B_Face_5");
                    assert(!("NFT_B_Face_5"@).contains('C')) by {
                        assert forall|q: int| 0 <= q < "NFT_B_Face_5"@.len() implies "NFT_B_Face_5"@[q] != 'C' by {}
                    }
                    lemma_char_absent_no_substring("NFT_B_Face_5"@, "Clothes"@, 'C');
                    assert("NFT_B_Face_5"@.subrange(6, 6 + "Face"@.len() as int) =~= "Face"@);
                    assert(spec_has_substring("NFT_B_Face_5"@, "Face"@));
                } else if i == 1 {
                    reveal_strlit("NFT_B_Face_6");
                    assert(!("NFT_B_Face_6"@).contains('C')) by {
                        assert forall|q: int| 0 <= q < "NFT_B_Face_6"@.len() implies "NFT_B_Face_6"@[q] != 'C' by {}
                    }
                    lemma_char_absent_no_substring("NFT_B_Face_6"@, "Clothes"@, 'C');
                    assert("NFT_B_Face_6"@.subrange(6, 6 + "Face"@.len() as int) =~= "Face"@);
                    assert(spec_has_substring("NFT_B_Face_6"@, "Face"@));
                } else if i == 2 {
                    reveal_strlit("NFT_B_Face_7");
                    assert(!("NFT_B_Face_7"@).contains('C')) by {
                        assert forall|q: int| 0 <= q < "NFT_B_Face_7"@.len() implies "NFT_B_Face_7"@[q] != 'C' by {}
                    }
                    lemma_char_absent_no_substring("NFT_B_Face_7"@, "Clothes"@, 'C');
                    assert("NFT_B_Face_7"@.subrange(6, 6 + "Face"@.len() as int) =~= "Face"@);
                    assert(spec_has_substring("NFT_B_Face_7"@, "Face"@));
                } else if i == 3 {
                    reveal_strlit("NFT_B_Face_8");
                    assert(!("NFT_B_Face_8"@).contains('C')) by {
                        assert forall|q: int| 0 <= q < "NFT_B_Face_8"@.len() implies "NFT_B_Face_8"@[q] != 'C' by {}
                    }
                    lemma_char_absent_no_substring("NFT_B_Face_8"@, "Clothes"@, 'C');
                    assert("NFT_B_Face_8"@.subrange(6, 6 + "Face"@.len() as int) =~= "Face"@);
                    assert(spec_has_substring("NFT_B_Face_8"@, "Face"@));
                } else if i == 4 {
                    reveal_strlit("NFT_B_Face_15");
                    assert(!("NFT_B_Face_15"@).contains('C')) by {
                        assert forall|q: int| 0 <= q < "NFT_B_Face_15"@.len() implies "NFT_B_Face_15"@[q] != 'C' by {}
                    }
                    lemma_char_absent_no_substring("NFT_B_Face_15"@, "Clothes"@, 'C');
                    assert("NFT_B_Face_15"@.subrange(6, 6 + "Face"@.len() as int) =~= "Face"@);
                    assert(spec_has_substring("NFT_B_Face_15"@, "Face"@));
                }
            },
            Rarity::Rare => {
                if i == 0 {
                    reveal_strlit("NFT_B_Face_9");
                    assert(!("NFT_B_Face_9"@).contains('C')) by {
                        assert forall|q: int| 0 <= q < "NFT_B_Face_9"@.len() implies "NFT_B_Face_9"@[q] != 'C' by {}
                    }
                    lemma_char_absent_no_substring("NFT_B_Face_9"@, "Clothes"@, 'C');
                    assert("NFT_B_Face_9"@.subrange(6, 6 + "Face"@.len() as int) =~= "Face"@);
                    assert(spec_has_substring("NFT_B_Face_9"@, "Face"@));
                } else if i == 1 {
                    reveal_strlit("NFT_B_Face_10");
                    assert(!("NFT_B_Face_10"@).contains('C')) by {
                        assert forall|q: int| 0 <= q < "NFT_B_Face_10"@.len() implies "NFT_B_Face_10"@[q] != 'C' by {}
                    }
                    lemma_char_absent_no_substring("NFT_B_Face_10"@, "Clothes"@, 'C');
                    assert("NFT_B_Face_10"@.subrange(6, 6 + "Face"@.len() as int) =~= "Face"@);
                    assert(spec_has_substring("NFT_B_Face_10"@, "Face"@));
                } else if i == 2 {
                    reveal_strlit("NFT_B_Face_11");
                    assert(!("NFT_B_Face_11"@).contains('C')) by {
                        assert forall|q: int| 0 <= q < "NFT_B_Face_11"@.len() implies "NFT_B_Face_11"@[q] != 'C' by {}
                    }
                    lemma_char_absent_no_substring("NFT_B_Face_11"@, "Clothes"@, 'C');
                    assert("NFT_B_Face_11"@.subrange(6, 6 + "Face"@.len() as int) =~= "Face"@);
                    assert(spec_has_substring("NFT_B_Face_11"@, "Face"@));
                } else if i == 3 {
                    reveal_strlit("NFT_B_Face_12");
                    assert(!("NFT_B_Face_12"@).contains('C')) by {
                        assert forall|q: int| 0 <= q < "NFT_B_Face_12"@.len() implies "NFT_B_Face_12"@[q] != 'C' by {}
                    }
                    lemma_char_absent_no_substring("NFT_B_Face_12"@, "Clothes"@, 'C');
                    assert("NFT_B_Face_12"@.subrange(6, 6 + "Face"@.len() as int) =~= "Face"@);
                    assert(spec_has_substring("NFT_B_Face_12"@, "Face"@));
                }
            },
            Rarity::Epic => {
                if i == 0 {
                    reveal_strlit("NFT_B_Face_16");
                    assert(!("NFT_B_Face_16"@).contains('C')) by {
                        assert forall|q: int| 0 <= q < "NFT_B_Face_16"@.len() implies "NFT_B_Face_16"@[q] != 'C' by {}
                    }
                    lemma_char_absent_no_substring("NFT_B_Face_16"@, "Clothes"@, 'C');
                    assert("NFT_B_Face_16"@.subrange(6, 6 + "Face"@.len() as int) =~= "Face"@);
                    assert(spec_has_substring("NFT_B_Face_16"@, "Face"@));
                } else if i == 1 {
                    reveal_strlit("NFT_B_Face_17");
                    assert(!("NFT_B_Face_17"@).contains('C')) by {
                        assert forall|q: int| 0 <= q < "NFT_B_Face_17"@.len() implies "NFT_B_Face_17"@[q] != 'C' by {}
                    }
                    lemma_char_absent_no_substring("NFT_B_Face_17"@, "Clothes"@, 'C');
                    assert("NFT_B_Face_17"@.subrange(6, 6 + "Face"@.len() as int) =~= "Face"@);
                    assert(spec_has_substring("NFT_B_Face_17"@, "Face"@));
                } else if i == 2 {
                    reveal_strlit("NFT_B_Face_18");
                    assert(!("NFT_B_Face_18"@).contains('C')) by {
                        assert forall|q: int| 0 <= q < "NFT_B_Face_18"@.len() implies "NFT_B_Face_18"@[q] != 'C' by {}
                    }
                    lemma_char_absent_no_substring("NFT_B_Face_18"@, "Clothes"@, 'C');
                    assert("NFT_B_Face_18"@.subrange(6, 6 + "Face"@.len() as int) =~= "Face"@);
                    assert(spec_has_substring("NFT_B_Face_18"@, "Face"@));
                } else if i == 3 {
                    reveal_strlit("NFT_B_Face_19");
                    assert(!("NFT_B_Face_19"@).contains('C')) by {
                        assert forall|q: int| 0 <= q < "NFT_B_Face_19"@.len() implies "NFT_B_Face_19"@[q] != 'C' by {}
                    }
                    lemma_char_absent_no_substring("NFT_B_Face_19"@, "Clothes"@, 'C');
                    assert("NFT_B_Face_19"@.subrange(6, 6 + "Face"@.len() as int) =~= "Face"@);
                    assert(spec_has_substring("NFT_B_Face_19"@, "Face"@));
                } else if i == 4 {
                    reveal_strlit("NFT_B_Face_23");
                    assert(!("NFT_B_Face_23"@).contains('C')) by {
                        assert forall|q: int| 0 <= q < "NFT_B_Face_23"@.len() implies "NFT_B_Face_23"@[q] != 'C' by {}
                    }
                    lemma_char_absent_no_substring("NFT_B_Face_23"@, "Clothes"@, 'C');
                    assert("NFT_B_Face_23"@.subrange(6, 6 + "Face"@.len() as int) =~= "Face"@);
                    assert(spec_has_substring("NFT_B_Face_23"@, "Face"@));
                } else if i == 5 {
                    reveal_strlit("NFT_B_Face_24");
                    assert(!("NFT_B_Face_24"@).contains('C')) by {
                        assert forall|q: int| 0 <= q < "NFT_B_Face_24"@.len() implies "NFT_B_Face_24"@[q] != 'C' by {}
                    }
                    lemma_char_absent_no_substring("NFT_B_Face_24"@, "Clothes"@, 'C');
                    assert("NFT_B_Face_24"@.subrange(6, 6 + "Face"@.len() as int) =~= "Face"@);
                    assert(spec_has_substring("NFT_B_Face_24"@, "Face"@));
                }
            },
            Rarity::Legendary => {
                if i == 0 {
                    reveal_strlit("NFT_B_Face_20");
                    assert(!("NFT_B_Face_20"@).contains('C')) by {
                        assert forall|q: int| 0 <= q < "NFT_B_Face_20"@.len() implies "NFT_B_Face_20"@[q] != 'C' by {}
                    }
                    lemma_char_absent_no_substring("NFT_B_Face_20"@, "Clothes"@, 'C');
                    assert("NFT_B_Face_20"@.subrange(6, 6 + "Face"@.len() as int) =~= "Face"@);
                    assert(spec_has_substring("NFT_B_Face_20"@, "Face"@));
                } else if i == 1 {
                    reveal_strlit("NFT_B_Face_21");
                    assert(!("NFT_B_Face_21"@).contains('C')) by {
                        assert forall|q: int| 0 <= q < "NFT_B_Face_21"@.len() implies "NFT_B_Face_21"@[q] != 'C' by {}
                    }
                    lemma_char_absent_no_substring("NFT_B_Face_21"@, "Clothes"@, 'C');
                    assert("NFT_B_Face_21"@.subrange(6, 6 + "Face"@.len() as int) =~= "Face"@);
                    assert(spec_has_substring("NFT_B_Face_21"@, "Face"@));
                } else if i == 2 {
                    reveal_strlit("NFT_B_Face_22");
                    assert(!("NFT_B_Face_22"@).contains('C')) by {
                        assert forall|q: int| 0 <= q < "NFT_B_Face_22"@.len() implies "NFT_B_Face_22"@[q] != 'C' by {}
                    }
                    lemma_char_absent_no_substring("NFT_B_Face_22"@, "Clothes"@, 'C');
                    assert("NFT_B_Face_22"@.subrange(6, 6 + "Face"@.len() as int) =~= "Face"@);
                    assert(spec_has_substring("NFT_B_Face_22"@, "Face"@));
                } else if i == 3 {
                    reveal_strlit("NFT_B_Face_25");
                    assert(!("NFT_B_Face_25"@).contains('C')) by {
                        assert forall|q: int| 0 <= q < "NFT_B_Face_25"@.len() implies "NFT_B_Face_25"@[q] != 'C' by {}
                    }
                    lemma_char_absent_no_substring("NFT_B_Face_25"@, "Clothes"@, 'C');
                    assert("NFT_B_Face_25"@.subrange(6, 6 + "Face"@.len() as int) =~= "Face"@);
                    assert(spec_has_substring("NFT_B_Face_25"@, "Face"@));
                } else if i == 4 {
                    reveal_strlit("NFT_B_Face_27");
                    assert(!("NFT_B_Face_27"@).contains('C')) by {
                        assert forall|q: int| 0 <= q < "NFT_B_Face_27"@.len() implies "NFT_B_Face_27"@[q] != 'C' by {}
                    }
                    lemma_char_absent_no_substring("NFT_B_Face_27"@, "Clothes"@, 'C');
                    assert("NFT_B_Face_27"@.subrange(6, 6 + "Face"@.len() as int) =~= "Face"@);
                    assert(spec_has_substring("NFT_B_Face_27"@, "Face"@));
                }
            },
            Rarity::Mythical => {
                if i == 0 {
                    reveal_strlit("NFT_B_Face_26");
                    assert(!("NFT_B_Face_26"@).contains('C')) by {
                        assert forall|q: int| 0 <= q < "NFT_B_Face_26"@.len() implies "NFT_B_Face_26"@[q] != 'C' by {}
                    }
                    lemma_char_absent_no_substring("NFT_B_Face_26"@, "Clothes"@, 'C');
                    assert("NFT_B_Face_26"@.subrange(6, 6 + "Face"@.len() as int) =~= "Face"@);
                    assert(spec_has_substring("NFT_B_Face_26"@, "Face"@));
                } else if i == 1 {
                    reveal_strlit("NFT_B_Face_28");
                    assert(!("NFT_B_Face_28"@).contains('C')) by {
                        assert forall|q: int| 0 <= q < "NFT_B_Face_28"@.len() implies "NFT_B_Face_28"@[q] != 'C' by {}
                    }
                    lemma_char_absent_no_substring("NFT_B_Face_28"@, "Clothes"@, 'C');
                    assert("NFT_B_Face_28"@.subrange(6, 6 + "Face"@.len() as int) =~= "Face"@);
                    assert(spec_has_substring("NFT_B_Face_28"@, "Face"@));
                }
            },
        },
        Gender::Girl => match r {
            Rarity::Common => {
                if i == 0 {
                    reveal_strlit("NFT_G_Face_6");
                    assert(!("NFT_G_Face_6"@).contains('C')) by {
                        assert forall|q: int| 0 <= q < "NFT_G_Face_6"@.len() implies "NFT_G_Face_6"@[q] != 'C' by {}
                    }
                    lemma_char_absent_no_substring("NFT_G_Face_6"@, "Clothes"@, 'C');
                    assert("NFT_G_Face_6"@.subrange(6, 6 + "Face"@.len() as int) =~= "Face"@);
                    assert(spec_has_substring("NFT_G_Face_6"@, "Face"@));
                } else if i == 1 {
                    reveal_strlit("NFT_G_Face_7");
                    assert(!("NFT_G_Face_7"@).contains('C')) by {
                        assert forall|q: int| 0 <= q < "NFT_G_Face_7"@.len() implies "NFT_G_Face_7"@[q] != 'C' by {}
                    }
                    lemma_char_absent_no_substring("NFT_G_Face_7"@, "Clothes"@, 'C');
                    assert("NFT_G_Face_7"@.subrange(6, 6 + "Face"@.len() as int) =~= "Face"@);
                    assert(spec_has_substring("NFT_G_Face_7"@, "Face"@));
                } else if i == 2 {
                    reveal_strlit("NFT_G_Face_8");
                    assert(!("NFT_G_Face_8"@).contains('C')) by {
                        assert forall|q: int| 0 <= q < "NFT_G_Face_8"@.len() implies "NFT_G_Face_8"@[q] != 'C' by {}
                    }
                    lemma_char_absent_no_substring("NFT_G_Face_8"@, "Clothes"@, 'C');
                    assert("NFT_G_Face_8"@.subrange(6, 6 + "Face"@.len() as int) =~= "Face"@);
                    assert(spec_has_substring("NFT_G_Face_8"@, "Face"@));
                } else if i == 3 {
                    reveal_strlit("NFT_G_Face_9");
                    assert(!("NFT_G_Face_9"@).contains('C')) by {
                        assert forall|q: int| 0 <= q < "NFT_G_Face_9"@.len() implies "NFT_G_Face_9"@[q] != 'C' by {}
                    }
                    lemma_char_absent_no_substring("NFT_G_Face_9"@, "Clothes"@, 'C');
                    assert("NFT_G_Face_9"@.subrange(6, 6 + "Face"@.len() as int) =~= "Face"@);
                    assert(spec_has_substring("NFT_G_Face_9"@, "Face"@));
                } else if i == 4 {
                    reveal_strlit("NFT_G_Face_14");
                    assert(!("NFT_G_Face_14"@).contains('C')) by {
                        assert forall|q: int| 0 <= q < "NFT_G_Face_14"@.len() implies "NFT_G_Face_14"@[q] != 'C' by {}
                    }
                    lemma_char_absent_no_substring("NFT_G_Face_14"@, "Clothes"@, 'C');
                    assert("NFT_G_Face_14"@.subrange(6, 6 + "Face"@.len() as int) =~= "Face"@);
                    assert(spec_has_substring("NFT_G_Face_14"@, "Face"@));
                }
            },
            Rarity::Uncommon => {
                if i == 0 {
                    reveal_strlit("NFT_G_Face_1");
                    assert(!("NFT_G_Face_1"@).contains('C')) by {
                        assert forall|q: int| 0 <= q < "NFT_G_Face_1"@.len() implies "NFT_G_Face_1"@[q] != 'C' by {}
                    }
                    lemma_char_absent_no_substring("NFT_G_Face_1"@, "Clothes"@, 'C');
                    assert("NFT_G_Face_1"@.subrange(6, 6 + "Face"@.len() as int) =~= "Face"@);
                    assert(spec_has_substring("NFT_G_Face_1"@, "Face"@));
                } else if i == 1 {
                    reveal_strlit("NFT_G_Face_2");
                    assert(!("NFT_G_Face_2"@).contains('C')) by {
                        assert forall|q: int| 0 <= q < "NFT_G_Face_2"@.len() implies "NFT_G_Face_2"@[q] != 'C' by {}
                    }
                    lemma_char_absent_no_substring("NFT_G_Face_2"@, "Clothes"@, 'C');
                    assert("NFT_G_Face_2"@.subrange(6, 6 + "Face"@.len() as int) =~= "Face"@);
                    assert(spec_has_substring("NFT_G_Face_2"@, "Face"@));
                } else if i == 2 {
                    reveal_strlit("NFT_G_Face_3");
                    assert(!("NFT_G_Face_3"@).contains('C')) by {
                        assert forall|q: int| 0 <= q < "NFT_G_Face_3"@.len() implies "NFT_G_Face_3"@[q] != 'C' by {}
                    }
                    lemma_char_absent_no_substring("NFT_G_Face_3"@, "Clothes"@, 'C');
                    assert("NFT_G_Face_3"@.subrange(6, 6 + "Face"@.len() as int) =~= "Face"@);
                    assert(spec_has_substring("NFT_G_Face_3"@, "Face"@));
                } else if i == 3 {
                    reveal_strlit("NFT_G_Face_4");
                    assert(!("NFT_G_Face_4"@).contains('C')) by {
                        assert forall|q: int| 0 <= q < "NFT_G_Face_4"@.len() implies "NFT_G_Face_4"@[q] != 'C' by {}
                    }
                    lemma_char_absent_no_substring("NFT_G_Face_4"@, "Clothes"@, 'C');
                    assert("NFT_G_Face_4"@.subrange(6, 6 + "Face"@.len() as int) =~= "Face"@);
                    assert(spec_has_substring("NFT_G_Face_4"@, "Face"@));
                } else if i == 4 {
                    reveal_strlit("NFT_G_Face_5");
                    assert(!("NFT_G_Face_5"@).contains('C')) by {
                        assert forall|q: int| 0 <= q < "NFT_G_Face_5"@.len() implies "NFT_G_Face_5"@[q] != 'C' by {}
                    }
                    lemma_char_absent_no_substring("NFT_G_Face_5"@, "Clothes"@, 'C');
                    assert("NFT_G_Face_5"@.subrange(6, 6 + "Face"@.len() as int) =~= "Face"@);
                    assert(spec_has_substring("NFT_G_Face_5"@, "Face"@));
                }
            },
            Rarity::Rare => {
                if i == 0 {
                    reveal_strlit("NFT_G_Face_10");
                    assert(!("NFT_G_Face_10"@).contains('C')) by {
                        assert forall|q: int| 0 <= q < "NFT_G_Face_10"@.len() implies "NFT_G_Face_10"@[q] != 'C' by {}
                    }
                    lemma_char_absent_no_substring("NFT_G_Face_10"@, "Clothes"@, 'C');
                    assert("NFT_G_Face_10"@.subrange(6, 6 + "Face"@.len() as int) =~= "Face"@);
                    assert(spec_has_substring("NFT_G_Face_10"@, "Face"@));
                } else if i == 1 {
                    reveal_strlit("NFT_G_Face_11");
                    assert(!("NFT_G_Face_11"@).contains('C')) by {
                        assert forall|q: int| 0 <= q < "NFT_G_Face_11"@.len() implies "NFT_G_Face_11"@[q] != 'C' by {}
                    }
                    lemma_char_absent_no_substring("NFT_G_Face_11"@, "Clothes"@, 'C');
                    assert("NFT_G_Face_11"@.subrange(6, 6 + "Face"@.len() as int) =~= "Face"@);
                    assert(spec_has_substring("NFT_G_Face_11"@, "Face"@));
                } else if i == 2 {
                    reveal_strlit("NFT_G_Face_12");
                    assert(!("NFT_G_Face_12"@).contains('C')) by {
                        assert forall|q: int| 0 <= q < "NFT_G_Face_12"@.len() implies "NFT_G_Face_12"@[q] != 'C' by {}
                    }
                    lemma_char_absent_no_substring("NFT_G_Face_12"@, "Clothes"@, 'C');
                    assert("NFT_G_Face_12"@.subrange(6, 6 + "Face"@.len() as int) =~= "Face"@);
                    assert(spec_has_substring("NFT_G_Face_12"@, "Face"@));
                } else if i == 3 {
                    reveal_strlit("NFT_G_Face_13");
                    assert(!("NFT_G_Face_13"@).contains('C')) by {
                        assert forall|q: int| 0 <= q < "NFT_G_Face_13"@.len() implies "NFT_G_Face_13"@[q] != 'C' by {}
                    }
                    lemma_char_absent_no_substring("NFT_G_Face_13"@, "Clothes"@, 'C');
                    assert("NFT_G_Face_13"@.subrange(6, 6 + "Face"@.len() as int) =~= "Face"@);
                    assert(spec_has_substring("NFT_G_Face_13"@, "Face"@));
                }
            },
            Rarity::Epic => {
                if i == 0 {
                    reveal_strlit("NFT_G_Face_15");
                    assert(!("NFT_G_Face_15"@).contains('C')) by {
                        assert forall|q: int| 0 <= q < "NFT_G_Face_15"@.len() implies "NFT_G_Face_15"@[q] != 'C' by {}
                    }
                    lemma_char_absent_no_substring("NFT_G_Face_15"@, "Clothes"@, 'C');
                    assert("NFT_G_Face_15"@.subrange(6, 6 + "Face"@.len() as int) =~= "Face"@);
                    assert(spec_has_substring("NFT_G_Face_15"@, "Face"@));
                } else if i == 1 {
                    reveal_strlit("NFT_G_Face_16");
                    assert(!("NFT_G_Face_16"@).contains('C')) by {
                        assert forall|q: int| 0 <= q < "NFT_G_Face_16"@.len() implies "NFT_G_Face_16"@[q] != 'C' by {}
                    }
                    lemma_char_absent_no_substring("NFT_G_Face_16"@, "Clothes"@, 'C');
                    assert("NFT_G_Face_16"@.subrange(6, 6 + "Face"@.len() as int) =~= "Face"@);
                    assert(spec_has_substring("NFT_G_Face_16"@, "Face"@));
                } else if i == 2 {
                    reveal_strlit("NFT_G_Face_17");
                    assert(!("NFT_G_Face_17"@).contains('C')) by {
                        assert forall|q: int| 0 <= q < "NFT_G_Face_17"@.len() implies "NFT_G_Face_17"@[q] != 'C' by {}
                    }
                    lemma_char_absent_no_substring("NFT_G_Face_17"@, "Clothes"@, 'C');
                    assert("NFT_G_Face_17"@.subrange(6, 6 + "Face"@.len() as int) =~= "Face"@);
                    assert(spec_has_substring("NFT_G_Face_17"@, "Face"@));
                }
            },
            Rarity::Legendary => {
                if i == 0 {
                    reveal_strlit("NFT_G_Face_18");
                    assert(!("NFT_G_Face_18"@).contains('C')) by {
                        assert forall|q: int| 0 <= q < "NFT_G_Face_18"@.len() implies "NFT_G_Face_18"@[q] != 'C' by {}
                    }
                    lemma_char_absent_no_substring("NFT_G_Face_18"@, "Clothes"@, 'C');
                    assert("NFT_G_Face_18"@.subrange(6, 6 + "Face"@.len() as int) =~= "Face"@);
                    assert(spec_has_substring("NFT_G_Face_18"@, "Face"@));
                } else if i == 1 {
                    reveal_strlit("NFT_G_Face_19");
                    assert(!("NFT_G_Face_19"@).contains('C')) by {
                        assert forall|q: int| 0 <= q < "NFT_G_Face_19"@.len() implies "NFT_G_Face_19"@[q] != 'C' by {}
                    }
                    lemma_char_absent_no_substring("NFT_G_Face_19"@, "Clothes"@, 'C');
                    assert("NFT_G_Face_19"@.subrange(6, 6 + "Face"@.len() as int) =~= "Face"@);
                    assert(spec_has_substring("NFT_G_Face_19"@, "Face"@));
                } else if i == 2 {
                    reveal_strlit("NFT_G_Face_21");
                    assert(!("NFT_G_Face_21"@).contains('C')) by {
                        assert forall|q: int| 0 <= q < "NFT_G_Face_21"@.len() implies "NFT_G_Face_21"@[q] != 'C' by {}
                    }
                    lemma_char_absent_no_substring("NFT_G_Face_21"@, "Clothes"@, 'C');
                    assert("NFT_G_Face_21"@.subrange(6, 6 + "Face"@.len() as int) =~= "Face"@);
                    assert(spec_has_substring("NFT_G_Face_21"@, "Face"@));
                } else if i == 3 {
                    reveal_strlit("NFT_G_Face_22");
                    assert(!("NFT_G_Face_22"@).contains('C')) by {
                        assert forall|q: int| 0 <= q < "NFT_G_Face_22"@.len() implies "NFT_G_Face_22"@[q] != 'C' by {}
                    }
                    lemma_char_absent_no_substring("NFT_G_Face_22"@, "Clothes"@, 'C');
                    assert("NFT_G_Face_22"@.subrange(6, 6 + "Face"@.len() as int) =~= "Face"@);
                    assert(spec_has_substring("NFT_G_Face_22"@, "Face"@));
                }
            },
            Rarity::Mythical => {
                if i == 0 {
                    reveal_strlit("NFT_G_Face_20");
                    assert(!("NFT_G_Face_20"@).contains('C')) by {
                        assert forall|q: int| 0 <= q < "NFT_G_Face_20"@.len() implies "NFT_G_Face_20"@[q] != 'C' by {}
                    }
                    lemma_char_absent_no_substring("NFT_G_Face_20"@, "Clothes"@, 'C');
                    assert("NFT_G_Face_20"@.subrange(6, 6 + "Face"@.len() as int) =~= "Face"@);
                    assert(spec_has_substring("NFT_G_Face_20"@, "Face"@));
                } else if i == 1 {
                    reveal_strlit("NFT_G_Face_23");
                    assert(!("NFT_G_Face_23"@).contains('C')) by {
                        assert forall|q: int| 0 <= q < "NFT_G_Face_23"@.len() implies "NFT_G_Face_23"@[q] != 'C' by {}
                    }
                    lemma_char_absent_no_substring("NFT_G_Face_23"@, "Clothes"@, 'C');
                    assert("NFT_G_Face_23"@.subrange(6, 6 + "Face"@.len() as int) =~= "Face"@);
                    assert(spec_has_substring("NFT_G_Face_23"@, "Face"@));
                }
            },
        },
    }
}

proof fn lemma_face_acc_marker(r: Rarity, i: int)
    requires
        0 <= i < spec_face_acc(r).len(),
    ensures
        spec_has_substring(spec_face_acc(r)[i], "Face"@),
        !spec_has_substring(spec_face_acc(r)[i], "Clothes"@),
{
    reveal_strlit("Clothes");
    reveal_strlit("Face");
    assert("Clothes"@.contains('C')) by {
        assert("Clothes"@[0] == 'C');
    }
    assert("Face"@.contains('c')) by {
        assert("Face"@[2] == 'c');
    }
    match r {
        Rarity::Common => {
        },
        Rarity::Uncommon => {
            if i == 0 {
                reveal_strlit("NFT_Face_Acc_1");
                assert(!("NFT_Face_Acc_1"@).contains('C')) by {
                    assert forall|q: int| 0 <= q < "NFT_Face_Acc_1"@.len() implies "NFT_Face_Acc_1"@[q] != 'C' by {}
                }
                lemma_char_absent_no_substring("NFT_Face_Acc_1"@, "Clothes"@, 'C');
                assert("NFT_Face_Acc_1"@.subrange(4, 4 + "Face"@.len() as int) =~= "Face"@);
                assert(spec_has_substring("NFT_Face_Acc_1"@, "Face"@));
            } else if i == 1 {
                reveal_strlit("NFT_Face_Acc_2");
                assert(!("NFT_Face_Acc_2"@).contains('C')) by {
                    assert forall|q: int| 0 <= q < "NFT_Face_Acc_2"@.len() implies "NFT_Face_Acc_2"@[q] != 'C' by {}
                }
                lemma_char_absent_no_substring("NFT_Face_Acc_2"@, "Clothes"@, 'C');
                assert("NFT_Face_Acc_2"@.subrange(4, 4 + "Face"@.len() as int) =~= "Face"@);
                assert(spec_has_substring("NFT_Face_Acc_2"@, "Face"@));
            }
        },
        Rarity::Rare => {
            if i == 0 {
                reveal_strlit("NFT_Face_Acc_5");
                assert(!("NFT_Face_Acc_5"@).contains('C')) by {
                    assert forall|q: int| 0 <= q < "NFT_Face_Acc_5"@.len() implies "NFT_Face_Acc_5"@[q] != 'C' by {}
                }
                lemma_char_absent_no_substring("NFT_Face_Acc_5"@, "Clothes"@, 'C');
                assert("NFT_Face_Acc_5"@.subrange(4, 4 + "Face"@.len() as int) =~= "Face"@);
                assert(spec_has_substring("NFT_Face_Acc_5"@, "Face"@));
            } else if i == 1 {
                reveal_strlit("NFT_Face_Acc_6");
                assert(!("NFT_Face_Acc_6"@).contains('C')) by {
                    assert forall|q: int| 0 <= q < "NFT_Face_Acc_6"@.len() implies "NFT_Face_Acc_6"@[q] != 'C' by {}
                }
                lemma_char_absent_no_substring("NFT_Face_Acc_6"@, "Clothes"@, 'C');
                assert("NFT_Face_Acc_6"@.subrange(4, 4 + "Face"@.len() as int) =~= "Face"@);
                assert(spec_has_substring("NFT_Face_Acc_6"@, "Face"@));
            }
        },
        Rarity::Epic => {
            if i == 0 {
                reveal_strlit("NFT_Face_Acc_3");
                assert(!("NFT_Face_Acc_3"@).contains('C')) by {
                    assert forall|q: int| 0 <= q < "NFT_Face_Acc_3"@.len() implies "NFT_Face_Acc_3"@[q] != 'C' by {}
                }
                lemma_char_absent_no_substring("NFT_Face_Acc_3"@, "Clothes"@, 'C');
                assert("NFT_Face_Acc_3"@.subrange(4, 4 + "Face"@.len() as int) =~= "Face"@);
                assert(spec_has_substring("NFT_Face_Acc_3"@, "Face"@));
            } else if i == 1 {
                reveal_strlit("NFT_Face_Acc_4");
                assert(!("NFT_Face_Acc_4"@).contains('C')) by {
                    assert forall|q: int| 0 <= q < "NFT_Face_Acc_4"@.len() implies "NFT_Face_Acc_4"@[q] != 'C' by {}
                }
                lemma_char_absent_no_substring("NFT_Face_Acc_4"@, "Clothes"@, 'C');
                assert("NFT_Face_Acc_4"@.subrange(4, 4 + "Face"@.len() as int) =~= "Face"@);
                assert(spec_has_substring("NFT_Face_Acc_4"@, "Face"@));
            }
        },
        Rarity::Legendary => {
            if i == 0 {
                reveal_strlit("NFT_Face_Acc_7");
                assert(!("NFT_Face_Acc_7"@).contains('C')) by {
                    assert forall|q: int| 0 <= q < "NFT_Face_Acc_7"@.len() implies "NFT_Face_Acc_7"@[q] != 'C' by {}
                }
                lemma_char_absent_no_substring("NFT_Face_Acc_7"@, "Clothes"@, 'C');
                assert("NFT_Face_Acc_7"@.subrange(4, 4 + "Face"@.len() as int) =~= "Face"@);
                assert(spec_has_substring("NFT_Face_Acc_7"@, "Face"@));
            } else if i == 1 {
                reveal_strlit("NFT_Face_Acc_8");
                assert(!("NFT_Face_Acc_8"@).contains('C')) by {
                    assert forall|q: int| 0 <= q < "NFT_Face_Acc_8"@.len() implies "NFT_Face_Acc_8"@[q] != 'C' by {}
                }
                lemma_char_absent_no_substring("NFT_Face_Acc_8"@, "Clothes"@, 'C');
                assert("NFT_Face_Acc_8"@.subrange(4, 4 + "Face"@.len() as int) =~= "Face"@);
                assert(spec_has_substring("NFT_Face_Acc_8"@, "Face"@));
            }
        },
        Rarity::Mythical => {
            if i == 0 {
                reveal_strlit("NFT_Face_Acc_9");
                assert(!("NFT_Face_Acc_9"@).contains('C')) by {
                    assert forall|q: int| 0 <= q < "NFT_Face_Acc_9"@.len() implies "NFT_Face_Acc_9"@[q] != 'C' by {}
                }
                lemma_char_absent_no_substring("NFT_Face_Acc_9"@, "Clothes"@, 'C');
                assert("NFT_Face_Acc_9"@.subrange(4, 4 + "Face"@.len() as int) =~= "Face"@);
                assert(spec_has_substring("NFT_Face_Acc_9"@, "Face"@));
            }
        },
    }
}

proof fn lemma_hair_marker(g: Gender, r: Rarity, i: int)
    requires
        0 <= i < spec_hair(g, r).len(),
    ensures
        !spec_has_substring(spec_hair(g, r)[i], "Clothes"@),
        !spec_has_substring(spec_hair(g, r)[i], "Face"@),
{
    reveal_strlit("Clothes");
    reveal_strlit("Face");
    assert("Clothes"@.contains('C')) by {
        assert("Clothes"@[0] == 'C');
    }
    assert("Face"@.contains('c')) by {
        assert("Face"@[2] == 'c');
    }
    match g {
        Gender::Boy => match r {
            Rarity::Common => {
                if i == 0 {
                    reveal_strlit("NFT_B_Hair_11");
                    assert(!("NFT_B_Hair_11"@).contains('C')) by {
                        assert forall|q: int| 0 <= q < "NFT_B_Hair_11"@.len() implies "NFT_B_Hair_11"@[q] != 'C' by {}
                    }
                    assert(!("NFT_B_Hair_11"@).contains('c')) by {
                        assert forall|q: int| 0 <= q < "NFT_B_Hair_11"@.len() implies "NFT_B_Hair_11"@[q] != 'c' by {}
                    }
                    lemma_char_absent_no_substring("NFT_B_Hair_11"@, "Clothes"@, 'C');
                    lemma_char_absent_no_substring("NFT_B_Hair_11"@, "Face"@, 'c');
                } else if i == 1 {
                    reveal_strlit("NFT_B_Hair_12");
                    assert(!("NFT_B_Hair_12"@).contains('C')) by {
                        assert forall|q: int| 0 <= q < "NFT_B_Hair_12"@.len() implies "NFT_B_Hair_12"@[q] != 'C' by {}
                    }
                    assert(!("NFT_B_Hair_12"@).contains('c')) by {
                        assert forall|q: int| 0 <= q < "NFT_B_Hair_12"@.len() implies "NFT_B_Hair_12"@[q] != 'c' by {}
                    }
                    lemma_char_absent_no_substring("NFT_B_Hair_12"@, "Clothes"@, 'C');
                    lemma_char_absent_no_substring("NFT_B_Hair_12"@, "Face"@, 'c');
                } else if i == 2 {
                    reveal_strlit("NFT_B_Hair_13");
                    assert(!("NFT_B_Hair_13"@).contains('C')) by {
                        assert forall|q: int| 0 <= q < "NFT_B_Hair_13"@.len() implies "NFT_B_Hair_13"@[q] != 'C' by {}
                    }
                    assert(!("NFT_B_Hair_13"@).contains('c')) by {
                        assert forall|q: int| 0 <= q < "NFT_B_Hair_13"@.len() implies "NFT_B_Hair_13"@[q] != 'c' by {}
                    }
                    lemma_char_absent_no_substring("NFT_B_Hair_13"@, "Clothes"@, 'C');
                    lemma_char_absent_no_substring("NFT_B_Hair_13"@, "Face"@, 'c');
                } else if i == 3 {
                    reveal_strlit("NFT_B_Hair_14");
                    assert(!("NFT_B_Hair_14"@).contains('C')) by {
                        assert forall|q: int| 0 <= q < "NFT_B_Hair_14"@.len() implies "NFT_B_Hair_14"@[q] != 'C' by {}
                    }
                    assert(!("NFT_B_Hair_14"@).contains('c')) by {
                        assert forall|q: int| 0 <= q < "NFT_B_Hair_14"@.len() implies "NFT_B_Hair_14"@[q] != 'c' by {}
                    }
                    lemma_char_absent_no_substring("NFT_B_Hair_14"@, "Clothes"@, 'C');
                    lemma_char_absent_no_substring("NFT_B_Hair_14"@, "Face"@, 'c');
                } else if i == 4 {
                    reveal_strlit("NFT_B_Hair_15");
                    assert(!("NFT_B_Hair_15"@).contains('C')) by {
                        assert forall|q: int| 0 <= q < "NFT_B_Hair_15"@.len() implies "NFT_B_Hair_15"@[q] != 'C' by {}
                    }
                    assert(!("NFT_B_Hair_15"@).contains('c')) by {
                        assert forall|q: int| 0 <= q < "NFT_B_Hair_15"@.len() implies "NFT_B_Hair_15"@[q] != 'c' by {}
                    }
                    lemma_char_absent_no_substring("NFT_B_Hair_15"@, "Clothes"@, 'C');
                    lemma_char_absent_no_substring("NFT_B_Hair_15"@, "Face"@, 'c');
                } else if i == 5 {
                    reveal_strlit("NFT_B_Hair_16");
                    assert(!("NFT_B_Hair_16"@).contains('C')) by {
                        assert forall|q: int| 0 <= q < "NFT_B_Hair_16"@.len() implies "NFT_B_Hair_16"@[q] != 'C' by {}
                    }
                    assert(!("NFT_B_Hair_16"@).contains('c')) by {
                        assert forall|q: int| 0 <= q < "NFT_B_Hair_16"@.len() implies "NFT_B_Hair_16"@[q] != 'c' by {}
                    }
                    lemma_char_absent_no_substring("NFT_B_Hair_16"@, "Clothes"@, 'C');
                    lemma_char_absent_no_substring("NFT_B_Hair_16"@, "Face"@, 'c');
                } else if i == 6 {
                    reveal_strlit("NFT_B_Hair_17");
                    assert(!("NFT_B_Hair_17"@).contains('C')) by {
                        assert forall|q: int| 0 <= q < "NFT_B_Hair_17"@.len() implies "NFT_B_Hair_17"@[q] != 'C' by {}
                    }
                    assert(!("NFT_B_Hair_17"@).contains('c')) by {
                        assert forall|q: int| 0 <= q < "NFT_B_Hair_17"@.len() implies "NFT_B_Hair_17"@[q] != 'c' by {}
                    }
                    lemma_char_absent_no_substring("NFT_B_Hair_17"@, "Clothes"@, 'C');
                    lemma_char_absent_no_substring("NFT_B_Hair_17"@, "Face"@, 'c');
                } else if i == 7 {
                    reveal_strlit("NFT_B_Hair_18");
                    assert(!("NFT_B_Hair_18"@).contains('C')) by {
                        assert forall|q: int| 0 <= q < "NFT_B_Hair_18"@.len() implies "NFT_B_Hair_18"@[q] != 'C' by {}
                    }
                    assert(!("NFT_B_Hair_18"@).contains('c')) by {
                        assert forall|q: int| 0 <= q < "NFT_B_Hair_18"@.len() implies "NFT_B_Hair_18"@[q] != 'c' by {}
                    }
                    lemma_char_absent_no_substring("NFT_B_Hair_18"@, "Clothes"@, 'C');
                    lemma_char_absent_no_substring("NFT_B_Hair_18"@, "Face"@, 'c');
                } else if i == 8 {
                    reveal_strlit("NFT_B_Hair_19");
                    assert(!("NFT_B_Hair_19"@).contains('C')) by {
                        assert forall|q: int| 0 <= q < "NFT_B_Hair_19"@.len() implies "NFT_B_Hair_19"@[q] != 'C' by {}
                    }
                    assert(!("NFT_B_Hair_19"@).contains('c')) by {
                        assert forall|q: int| 0 <= q < "NFT_B_Hair_19"@.len() implies "NFT_B_Hair_19"@[q] != 'c' by {}
                    }
                    lemma_char_absent_no_substring("NFT_B_Hair_19"@, "Clothes"@, 'C');
                    lemma_char_absent_no_substring("NFT_B_Hair_19"@, "Face"@, 'c');
                } else if i == 9 {
                    reveal_strlit("NFT_B_Hair_20");
                    assert(!("NFT_B_Hair_20"@).contains('C')) by {
                        assert forall|q: int| 0 <= q < "NFT_B_Hair_20"@.len() implies "NFT_B_Hair_20"@[q] != 'C' by {}
                    }
                    assert(!("NFT_B_Hair_20"@).contains('c')) by {
                        assert forall|q: int| 0 <= q < "NFT_B_Hair_20"@.len() implies "NFT_B_Hair_20"@[q] != 'c' by {}
                    }
                    lemma_char_absent_no_substring("NFT_B_Hair_20"@, "Clothes"@, 'C');
                    lemma_char_absent_no_substring("NFT_B_Hair_20"@, "Face"@, 'c');
                } else if i == 10 {
                    reveal_strlit("NFT_B_Hair_21");
                    assert(!("NFT_B_Hair_21"@).contains('C')) by {
                        assert forall|q: int| 0 <= q < "NFT_B_Hair_21"@.len() implies "NFT_B_Hair_21"@[q] != 'C' by {}
                    }
                    assert(!("NFT_B_Hair_21"@).contains('c')) by {
                        assert forall|q: int| 0 <= q < "NFT_B_Hair_21"@.len() implies "NFT_B_Hair_21"@[q] != 'c' by {}
                    }
                    lemma_char_absent_no_substring("NFT_B_Hair_21"@, "Clothes"@, 'C');
                    lemma_char_absent_no_substring("NFT_B_Hair_21"@, "Face"@, 'c');
                } else if i == 11 {
                    reveal_strlit("NFT_B_Hair_22");
                    assert(!("NFT_B_Hair_22"@).contains('C')) by {
                        assert forall|q: int| 0 <= q < "NFT_B_Hair_22"@.len() implies "NFT_B_Hair_22"@[q] != 'C' by {}
                    }
                    assert(!("NFT_B_Hair_22"@).contains('c')) by {
                        assert forall|q: int| 0 <= q < "NFT_B_Hair_22"@.len() implies "NFT_B_Hair_22"@[q] != 'c' by {}
                    }
                    lemma_char_absent_no_substring("NFT_B_Hair_22"@, "Clothes"@, 'C');
                    lemma_char_absent_no_substring("NFT_B_Hair_22"@, "Face"@, 'c');
                } else if i == 12 {
                    reveal_strlit("NFT_B_Hair_23");
                    assert(!("NFT_B_Hair_23"@).contains('C')) by {
                        assert forall|q: int| 0 <= q < "NFT_B_Hair_23"@.len() implies "NFT_B_Hair_23"@[q] != 'C' by {}
                    }
                    assert(!("NFT_B_Hair_23"@).contains('c')) by {
                        assert forall|q: int| 0 <= q < "NFT_B_Hair_23"@.len() implies "NFT_B_Hair_23"@[q] != 'c' by {}
                    }
                    lemma_char_absent_no_substring("NFT_B_Hair_23"@, "Clothes"@, 'C');
                    lemma_char_absent_no_substring("NFT_B_Hair_23"@, "Face"@, 'c');
                } else if i == 13 {
                    reveal_strlit("NFT_B_Hair_24");
                    assert(!("NFT_B_Hair_24"@).contains('C')) by {
                        assert forall|q: int| 0 <= q < "NFT_B_Hair_24"@.len() implies "NFT_B_Hair_24"@[q] != 'C' by {}
                    }
                    assert(!("NFT_B_Hair_24"@).contains('c')) by {
                        assert forall|q: int| 0 <= q < "NFT_B_Hair_24"@.len() implies "NFT_B_Hair_24"@[q] != 'c' by {}
                    }
                    lemma_char_absent_no_substring("NFT_B_Hair_24"@, "Clothes"@, 'C');
                    lemma_char_absent_no_substring("NFT_B_Hair_24"@, "Face"@, 'c');
                } else if i == 14 {
                    reveal_strlit("NFT_B_Hair_25");
                    assert(!("NFT_B_Hair_25"@).contains('C')) by {
                        assert forall|q: int| 0 <= q < "NFT_B_Hair_25"@.len() implies "NFT_B_Hair_25"@[q] != 'C' by {}
                    }
                    assert(!("NFT_B_Hair_25"@).contains('c')) by {
                        assert forall|q: int| 0 <= q < "NFT_B_Hair_25"@.len() implies "NFT_B_Hair_25"@[q] != 'c' by {}
                    }
                    lemma_char_absent_no_substring("NFT_B_Hair_25"@, "Clothes"@, 'C');
                    lemma_char_absent_no_substring("NFT_B_Hair_25"@, "Face"@, 'c');
                } else if i == 15 {
                    reveal_strlit("NFT_B_Hair_26");
                    assert(!("NFT_B_Hair_26"@).contains('C')) by {
                        assert forall|q: int| 0 <= q < "NFT_B_Hair_26"@.len() implies "NFT_B_Hair_26"@[q] != 'C' by {}
                    }
                    assert(!("NFT_B_Hair_26"@).contains('c')) by {
                        assert forall|q: int| 0 <= q < "NFT_B_Hair_26"@.len() implies "NFT_B_Hair_26"@[q] != 'c' by {}
                    }
                    lemma_char_absent_no_substring("NFT_B_Hair_26"@, "Clothes"@, 'C');
                    lemma_char_absent_no_substring("NFT_B_Hair_26"@, "Face"@, 'c');
                } else if i == 16 {
                    reveal_strlit("NFT_B_Hair_27");
                    assert(!("NFT_B_Hair_27"@).contains('C')) by {
                        assert forall|q: int| 0 <= q < "NFT_B_Hair_27"@.len() implies "NFT_B_Hair_27"@[q] != 'C' by {}
                    }
                    assert(!("NFT_B_Hair_27"@).contains('c')) by {
                        assert forall|q: int| 0 <= q < "NFT_B_Hair_27"@.len() implies "NFT_B_Hair_27"@[q] != 'c' by {}
                    }
                    lemma_char_absent_no_substring("NFT_B_Hair_27"@, "Clothes"@, 'C');
                    lemma_char_absent_no_substring("NFT_B_Hair_27"@, "Face"@, 'c');
                } else if i == 17 {
                    reveal_strlit("NFT_B_Hair_28");
                    assert(!("NFT_B_Hair_28"@).contains('C')) by {
                        assert forall|q: int| 0 <= q < "NFT_B_Hair_28"@.len() implies "NFT_B_Hair_28"@[q] != 'C' by {}
                    }
                    assert(!("NFT_B_Hair_28"@).contains('c')) by {
                        assert forall|q: int| 0 <= q < "NFT_B_Hair_28"@.len() implies "NFT_B_Hair_28"@[q] != 'c' by {}
                    }
                    lemma_char_absent_no_substring("NFT_B_Hair_28"@, "Clothes"@, 'C');
                    lemma_char_absent_no_substring("NFT_B_Hair_28"@, "Face"@, 'c');
                } else if i == 18 {
                    reveal_strlit("NFT_B_Hair_29");
                    assert(!("NFT_B_Hair_29"@).contains('C')) by {
                        assert forall|q: int| 0 <= q < "NFT_B_Hair_29"@.len() implies "NFT_B_Hair_29"@[q] != 'C' by {}
                    }
                    assert(!("NFT_B_Hair_29"@).contains('c')) by {
                        assert forall|q: int| 0 <= q < "NFT_B_Hair_29"@.len() implies "NFT_B_Hair_29"@[q] != 'c' by {}
                    }
                    lemma_char_absent_no_substring("NFT_B_Hair_29"@, "Clothes"@, 'C');
                    lemma_char_absent_no_substring("NFT_B_Hair_29"@, "Face"@, 'c');
                } else if i == 19 {
                    reveal_strlit("NFT_B_Hair_30");
                    assert(!("NFT_B_Hair_30"@).contains('C')) by {
                        assert forall|q: int| 0 <= q < "NFT_B_Hair_30"@.len() implies "NFT_B_Hair_30"@[q] != 'C' by {}
                    }
                    assert(!("NFT_B_Hair_30"@).contains('c')) by {
                        assert forall|q: int| 0 <= q < "NFT_B_Hair_30"@.len() implies "NFT_B_Hair_30"@[q] != 'c' by {}
                    }
                    lemma_char_absent_no_substring("NFT_B_Hair_30"@, "Clothes"@, 'C');
                    lemma_char_absent_no_substring("NFT_B_Hair_30"@, "Face"@, 'c');
                } else if i == 20 {
                    reveal_strlit("NFT_B_Hair_31");
                    assert(!("NFT_B_Hair_31"@).contains('C')) by {
                        assert forall|q: int| 0 <= q < "NFT_B_Hair_31"@.len() implies "NFT_B_Hair_31"@[q] != 'C' by {}
                    }
                    assert(!("NFT_B_Hair_31"@).contains('c')) by {
                        assert forall|q: int| 0 <= q < "NFT_B_Hair_31"@.len() implies "NFT_B_Hair_31"@[q] != 'c' by {}
                    }
                    lemma_char_absent_no_substring("NFT_B_Hair_31"@, "Clothes"@, 'C');
                    lemma_char_absent_no_substring("NFT_B_Hair_31"@, "Face"@, 'c');
                }
            },
            Rarity::Uncommon => {
                if i == 0 {
                    reveal_strlit("NFT_B_Hair_2");
                    assert(!("NFT_B_Hair_2"@).contains('C')) by {
                        assert forall|q: int| 0 <= q < "NFT_B_Hair_2"@.len() implies "NFT_B_Hair_2"@[q] != 'C' by {}
                    }
                    assert(!("NFT_B_Hair_2"@).contains('c')) by {
                        assert forall|q: int| 0 <= q < "NFT_B_Hair_2"@.len() implies "NFT_B_Hair_2"@[q] != 'c' by {}
                    }
                    lemma_char_absent_no_substring("NFT_B_Hair_2"@, "Clothes"@, 'C');
                    lemma_char_absent_no_substring("NFT_B_Hair_2"@, "Face"@, 'c');
                } else if i == 1 {
                    reveal_strlit("NFT_B_Hair_3");
                    assert(!("NFT_B_Hair_3"@).contains('C')) by {
                        assert forall|q: int| 0 <= q < "NFT_B_Hair_3"@.len() implies "NFT_B_Hair_3"@[q] != 'C' by {}
                    }
                    assert(!("NFT_B_Hair_3"@).contains('c')) by {
                        assert forall|q: int| 0 <= q < "NFT_B_Hair_3"@.len() implies "NFT_B_Hair_3"@[q] != 'c' by {}
                    }
                    lemma_char_absent_no_substring("NFT_B_Hair_3"@, "Clothes"@, 'C');
                    lemma_char_absent_no_substring("NFT_B_Hair_3"@, "Face"@, 'c');
                } else if i == 2 {
                    reveal_strlit("NFT_B_Hair_4");
                    assert(!("NFT_B_Hair_4"@).contains('C')) by {
                        assert forall|q: int| 0 <= q < "NFT_B_Hair_4"@.len() implies "NFT_B_Hair_4"@[q] != 'C' by {}
                    }
                    assert(!("NFT_B_Hair_4"@).contains('c')) by {
                        assert forall|q: int| 0 <= q < "NFT_B_Hair_4"@.len() implies "NFT_B_Hair_4"@[q] != 'c' by {}
                    }
                    lemma_char_absent_no_substring("NFT_B_Hair_4"@, "Clothes"@, 'C');
                    lemma_char_absent_no_substring("NFT_B_Hair_4"@, "Face"@, 'c');
                } else if i == 3 {
                    reveal_strlit("NFT_B_Hair_7");
                    assert(!("NFT_B_Hair_7"@).contains('C')) by {
                        assert forall|q: int| 0 <= q < "NFT_B_Hair_7"@.len() implies "NFT_B_Hair_7"@[q] != 'C' by {}
                    }
                    assert(!("NFT_B_Hair_7"@).contains('c')) by {
                        assert forall|q: int| 0 <= q < "NFT_B_Hair_7"@.len() implies "NFT_B_Hair_7"@[q] != 'c' by {}
                    }
                    lemma_char_absent_no_substring("NFT_B_Hair_7"@, "Clothes"@, 'C');
                    lemma_char_absent_no_substring("NFT_B_Hair_7"@, "Face"@, 'c');
                } else if i == 4 {
                    reveal_strlit("NFT_B_Hair_8");
                    assert(!("NFT_B_Hair_8"@).contains('C')) by {
                        assert forall|q: int| 0 <= q < "NFT_B_Hair_8"@.len() implies "NFT_B_Hair_8"@[q] != 'C' by {}
                    }
                    assert(!("NFT_B_Hair_8"@).contains('c')) by {
                        assert forall|q: int| 0 <= q < "NFT_B_Hair_8"@.len() implies "NFT_B_Hair_8"@[q] != 'c' by {}
                    }
                    lemma_char_absent_no_substring("NFT_B_Hair_8"@, "Clothes"@, 'C');
                    lemma_char_absent_no_substring("NFT_B_Hair_8"@, "Face"@, 'c');
                } else if i == 5 {
                    reveal_strlit("NFT_B_Hair_9");
                    assert(!("NFT_B_Hair_9"@).contains('C')) by {
                        assert forall|q: int| 0 <= q < "NFT_B_Hair_9"@.len() implies "NFT_B_Hair_9"@[q] != 'C' by {}
                    }
                    assert(!("NFT_B_Hair_9"@).contains('c')) by {
                        assert forall|q: int| 0 <= q < "NFT_B_Hair_9"@.len() implies "NFT_B_Hair_9"@[q] != 'c' by {}
                    }
                    lemma_char_absent_no_substring("NFT_B_Hair_9"@, "Clothes"@, 'C');
                    lemma_char_absent_no_substring("NFT_B_Hair_9"@, "Face"@, 'c');
                } else if i == 6 {
                    reveal_strlit("NFT_B_Hair_10");
                    assert(!("NFT_B_Hair_10"@).contains('C')) by {
                        assert forall|q: int| 0 <= q < "NFT_B_Hair_10"@.len() implies "NFT_B_Hair_10"@[q] != 'C' by {}
                    }
                    assert(!("NFT_B_Hair_10"@).contains('c')) by {
                        assert forall|q: int| 0 <= q < "NFT_B_Hair_10"@.len() implies "NFT_B_Hair_10"@[q] != 'c' by {}
                    }
                    lemma_char_absent_no_substring("NFT_B_Hair_10"@, "Clothes"@, 'C');
                    lemma_char_absent_no_substring("NFT_B_Hair_10"@, "Face"@, 'c');
                }
            },
            Rarity::Rare => {
                if i == 0 {
                    reveal_strlit("NFT_B_Hair_32");
                    assert(!("NFT_B_Hair_32"@).contains('C')) by {
                        assert forall|q: int| 0 <= q < "NFT_B_Hair_32"@.len() implies "NFT_B_Hair_32"@[q] != 'C' by {}
                    }
                    assert(!("NFT_B_Hair_32"@).contains('c')) by {
                        assert forall|q: int| 0 <= q < "NFT_B_Hair_32"@.len() implies "NFT_B_Hair_32"@[q] != 'c' by {}
                    }
                    lemma_char_absent_no_substring("NFT_B_Hair_32"@, "Clothes"@, 'C');
                    lemma_char_absent_no_substring("NFT_B_Hair_32"@, "Face"@, 'c');
                } else if i == 1 {
                    reveal_strlit("NFT_B_Hair_33");
                    assert(!("NFT_B_Hair_33"@).contains('C')) by {
                        assert forall|q: int| 0 <= q < "NFT_B_Hair_33"@.len() implies "NFT_B_Hair_33"@[q] != 'C' by {}
                    }
                    assert(!("NFT_B_Hair_33"@).contains('c')) by {
                        assert forall|q: int| 0 <= q < "NFT_B_Hair_33"@.len() implies "NFT_B_Hair_33"@[q] != 'c' by {}
                    }
                    lemma_char_absent_no_substring("NFT_B_Hair_33"@, "Clothes"@, 'C');
                    lemma_char_absent_no_substring("NFT_B_Hair_33"@, "Face"@, 'c');
                } else if i == 2 {
                    reveal_strlit("NFT_B_Hair_34");
                    assert(!("NFT_B_Hair_34"@).contains('C')) by {
                        assert forall|q: int| 0 <= q < "NFT_B_Hair_34"@.len() implies "NFT_B_Hair_34"@[q] != 'C' by {}
                    }
                    assert(!("NFT_B_Hair_34"@).contains('c')) by {
                        assert forall|q: int| 0 <= q < "NFT_B_Hair_34"@.len() implies "NFT_B_Hair_34"@[q] != 'c' by {}
                    }
                    lemma_char_absent_no_substring("NFT_B_Hair_34"@, "Clothes"@, 'C');
                    lemma_char_absent_no_substring("NFT_B_Hair_34"@, "Face"@, 'c');
                } else if i == 3 {
                    reveal_strlit("NFT_B_Hair_35");
                    assert(!("NFT_B_Hair_35"@).contains('C')) by {
                        assert forall|q: int| 0 <= q < "NFT_B_Hair_35"@.len() implies "NFT_B_Hair_35"@[q] != 'C' by {}
                    }
                    assert(!("NFT_B_Hair_35"@).contains('c')) by {
                        assert forall|q: int| 0 <= q < "NFT_B_Hair_35"@.len() implies "NFT_B_Hair_35"@[q] != 'c' by {}
                    }
                    lemma_char_absent_no_substring("NFT_B_Hair_35"@, "Clothes"@, 'C');
                    lemma_char_absent_no_substring("NFT_B_Hair_35"@, "Face"@, 'c');
                } else if i == 4 {
                    reveal_strlit("NFT_B_Hair_36");
                    assert(!("NFT_B_Hair_36"@).contains('C')) by {
                        assert forall|q: int| 0 <= q < "NFT_B_Hair_36"@.len() implies "NFT_B_Hair_36"@[q] != 'C' by {}
                    }
                    assert(!("NFT_B_Hair_36"@).contains('c')) by {
                        assert forall|q: int| 0 <= q < "NFT_B_Hair_36"@.len() implies "NFT_B_Hair_36"@[q] != 'c' by {}
                    }
                    lemma_char_absent_no_substring("NFT_B_Hair_36"@, "Clothes"@, 'C');
                    lemma_char_absent_no_substring("NFT_B_Hair_36"@, "Face"@, 'c');
                } else if i == 5 {
                    reveal_strlit("NFT_B_Hair_37");
                    assert(!("NFT_B_Hair_37"@).contains('C')) by {
                        assert forall|q: int| 0 <= q < "NFT_B_Hair_37"@.len() implies "NFT_B_Hair_37"@[q] != 'C' by {}
                    }
                    assert(!("NFT_B_Hair_37"@).contains('c')) by {
                        assert forall|q: int| 0 <= q < "NFT_B_Hair_37"@.len() implies "NFT_B_Hair_37"@[q] != 'c' by {}
                    }
                    lemma_char_absent_no_substring("NFT_B_Hair_37"@, "Clothes"@, 'C');
                    lemma_char_absent_no_substring("NFT_B_Hair_37"@, "Face"@, 'c');
                } else if i == 6 {
                    reveal_strlit("NFT_B_Hair_38");
                    assert(!("NFT_B_Hair_38"@).contains('C')) by {
                        assert forall|q: int| 0 <= q < "NFT_B_Hair_38"@.len() implies "NFT_B_Hair_38"@[q] != 'C' by {}
                    }
                    assert(!("NFT_B_Hair_38"@).contains('c')) by {
                        assert forall|q: int| 0 <= q < "NFT_B_Hair_38"@.len() implies "NFT_B_Hair_38"@[q] != 'c' by {}
                    }
                    lemma_char_absent_no_substring("NFT_B_Hair_38"@, "Clothes"@, 'C');
                    lemma_char_absent_no_substring("NFT_B_Hair_38"@, "Face"@, 'c');
                }
            },
            Rarity::Epic => {
                if i == 0 {
                    reveal_strlit("NFT_B_Hair_1");
                    assert(!("NFT_B_Hair_1"@).contains('C')) by {
                        assert forall|q: int| 0 <= q < "NFT_B_Hair_1"@.len() implies "NFT_B_Hair_1"@[q] != 'C' by {}
                    }
                    assert(!("NFT_B_Hair_1"@).contains('c')) by {
                        assert forall|q: int| 0 <= q < "NFT_B_Hair_1"@.len() implies "NFT_B_Hair_1"@[q] != 'c' by {}
                    }
                    lemma_char_absent_no_substring("NFT_B_Hair_1"@, "Clothes"@, 'C');
                    lemma_char_absent_no_substring("NFT_B_Hair_1"@, "Face"@, 'c');
                } else if i == 1 {
                    reveal_strlit("NFT_B_Hair_5");
                    assert(!("NFT_B_Hair_5"@).contains('C')) by {
                        assert forall|q: int| 0 <= q < "NFT_B_Hair_5"@.len() implies "NFT_B_Hair_5"@[q] != 'C' by {}
                    }
                    assert(!("NFT_B_Hair_5"@).contains('c')) by {
                        assert forall|q: int| 0 <= q < "NFT_B_Hair_5"@.len() implies "NFT_B_Hair_5"@[q] != 'c' by {}
                    }
                    lemma_char_absent_no_substring("NFT_B_Hair_5"@, "Clothes"@, 'C');
                    lemma_char_absent_no_substring("NFT_B_Hair_5"@, "Face"@, 'c');
                } else if i == 2 {
                    reveal_strlit("NFT_B_Hair_6");
                    assert(!("NFT_B_Hair_6"@).contains('C')) by {
                        assert forall|q: int| 0 <= q < "NFT_B_Hair_6"@.len() implies "NFT_B_Hair_6"@[q] != 'C' by {}
                    }
                    assert(!("NFT_B_Hair_6"@).contains('c')) by {
                        assert forall|q: int| 0 <= q < "NFT_B_Hair_6"@.len() implies "NFT_B_Hair_6"@[q] != 'c' by {}
                    }
                    lemma_char_absent_no_substring("NFT_B_Hair_6"@, "Clothes"@, 'C');
                    lemma_char_absent_no_substring("NFT_B_Hair_6"@, "Face"@, 'c');
                }
            },
            Rarity::Legendary => {
                if i == 0 {
                    reveal_strlit("NFT_B_Hair_39");
                    assert(!("NFT_B_Hair_39"@).contains('C')) by {
                        assert forall|q: int| 0 <= q < "NFT_B_Hair_39"@.len() implies "NFT_B_Hair_39"@[q] != 'C' by {}
                    }
                    assert(!("NFT_B_Hair_39"@).contains('c')) by {
                        assert forall|q: int| 0 <= q < "NFT_B_Hair_39"@.len() implies "NFT_B_Hair_39"@[q] != 'c' by {}
                    }
                    lemma_char_absent_no_substring("NFT_B_Hair_39"@, "Clothes"@, 'C');
                    lemma_char_absent_no_substring("NFT_B_Hair_39"@, "Face"@, 'c');
                } else if i == 1 {
                    reveal_strlit("NFT_B_Hair_41");
                    assert(!("NFT_B_Hair_41"@).contains('C')) by {
                        assert forall|q: int| 0 <= q < "NFT_B_Hair_41"@.len() implies "NFT_B_Hair_41"@[q] != 'C' by {}
                    }
                    assert(!("NFT_B_Hair_41"@).contains('c')) by {
                        assert forall|q: int| 0 <= q < "NFT_B_Hair_41"@.len() implies "NFT_B_Hair_41"@[q] != 'c' by {}
                    }
                    lemma_char_absent_no_substring("NFT_B_Hair_41"@, "Clothes"@, 'C');
                    lemma_char_absent_no_substring("NFT_B_Hair_41"@, "Face"@, 'c');
                }
            },
            Rarity::Mythical => {
                if i == 0 {
                    reveal_strlit("NFT_B_Hair_40");
                    assert(!("NFT_B_Hair_40"@).contains('C')) by {
                        assert forall|q: int| 0 <= q < "NFT_B_Hair_40"@.len() implies "NFT_B_Hair_40"@[q] != 'C' by {}
                    }
                    assert(!("NFT_B_Hair_40"@).contains('c')) by {
                        assert forall|q: int| 0 <= q < "NFT_B_Hair_40"@.len() implies "NFT_B_Hair_40"@[q] != 'c' by {}
                    }
                    lemma_char_absent_no_substring("NFT_B_Hair_40"@, "Clothes"@, 'C');
                    lemma_char_absent_no_substring("NFT_B_Hair_40"@, "Face"@, 'c');
                } else if i == 1 {
                    reveal_strlit("NFT_B_Hair_42");
                    assert(!("NFT_B_Hair_42"@).contains('C')) by {
                        assert forall|q: int| 0 <= q < "NFT_B_Hair_42"@.len() implies "NFT_B_Hair_42"@[q] != 'C' by {}
                    }
                    assert(!("NFT_B_Hair_42"@).contains('c')) by {
                        assert forall|q: int| 0 <= q < "NFT_B_Hair_42"@.len() implies "NFT_B_Hair_42"@[q] != 'c' by {}
                    }
                    lemma_char_absent_no_substring("NFT_B_Hair_42"@, "Clothes"@, 'C');
                    lemma_char_absent_no_substring("NFT_B_Hair_42"@, "Face"@, 'c');
                }
            },
        },
        Gender::Girl => match r {
            Rarity::Common => {
                if i == 0 {
                    reveal_strlit("NFT_G_Hair_17");
                    assert(!("NFT_G_Hair_17"@).contains('C')) by {
                        assert forall|q: int| 0 <= q < "NFT_G_Hair_17"@.len() implies "NFT_G_Hair_17"@[q] != 'C' by {}
                    }
                    assert(!("NFT_G_Hair_17"@).contains('c')) by {
                        assert forall|q: int| 0 <= q < "NFT_G_Hair_17"@.len() implies "NFT_G_Hair_17"@[q] != 'c' by {}
                    }
                    lemma_char_absent_no_substring("NFT_G_Hair_17"@, "Clothes"@, 'C');
                    lemma_char_absent_no_substring("NFT_G_Hair_17"@, "Face"@, 'c');
                } else if i == 1 {
                    reveal_strlit("NFT_G_Hair_18");
                    assert(!("NFT_G_Hair_18"@).contains('C')) by {
                        assert forall|q: int| 0 <= q < "NFT_G_Hair_18"@.len() implies "NFT_G_Hair_18"@[q] != 'C' by {}
                    }
                    assert(!("NFT_G_Hair_18"@).contains('c')) by {
                        assert forall|q: int| 0 <= q < "NFT_G_Hair_18"@.len() implies "NFT_G_Hair_18"@[q] != 'c' by {}
                    }
                    lemma_char_absent_no_substring("NFT_G_Hair_18"@, "Clothes"@, 'C');
                    lemma_char_absent_no_substring("NFT_G_Hair_18"@, "Face"@, 'c');
                } else if i == 2 {
                    reveal_strlit("NFT_G_Hair_19");
                    assert(!("NFT_G_Hair_19"@).contains('C')) by {
                        assert forall|q: int| 0 <= q < "NFT_G_Hair_19"@.len() implies "NFT_G_Hair_19"@[q] != 'C' by {}
                    }
                    assert(!("NFT_G_Hair_19"@).contains('c')) by {
                        assert forall|q: int| 0 <= q < "NFT_G_Hair_19"@.len() implies "NFT_G_Hair_19"@[q] != 'c' by {}
                    }
                    lemma_char_absent_no_substring("NFT_G_Hair_19"@, "Clothes"@, 'C');
                    lemma_char_absent_no_substring("NFT_G_Hair_19"@, "Face"@, 'c');
                } else if i == 3 {
                    reveal_strlit("NFT_G_Hair_20");
                    assert(!("NFT_G_Hair_20"@).contains('C')) by {
                        assert forall|q: int| 0 <= q < "NFT_G_Hair_20"@.len() implies "NFT_G_Hair_20"@[q] != 'C' by {}
                    }
                    assert(!("NFT_G_Hair_20"@).contains('c')) by {
                        assert forall|q: int| 0 <= q < "NFT_G_Hair_20"@.len() implies "NFT_G_Hair_20"@[q] != 'c' by {}
                    }
                    lemma_char_absent_no_substring("NFT_G_Hair_20"@, "Clothes"@, 'C');
                    lemma_char_absent_no_substring("NFT_G_Hair_20"@, "Face"@, 'c');
                } else if i == 4 {
                    reveal_strlit("NFT_G_Hair_21");
                    assert(!("NFT_G_Hair_21"@).contains('C')) by {
                        assert forall|q: int| 0 <= q < "NFT_G_Hair_21"@.len() implies "NFT_G_Hair_21"@[q] != 'C' by {}
                    }
                    assert(!("NFT_G_Hair_21"@).contains('c')) by {
                        assert forall|q: int| 0 <= q < "NFT_G_Hair_21"@.len() implies "NFT_G_Hair_21"@[q] != 'c' by {}
                    }
                    lemma_char_absent_no_substring("NFT_G_Hair_21"@, "Clothes"@, 'C');
                    lemma_char_absent_no_substring("NFT_G_Hair_21"@, "Face"@, 'c');
                } else if i == 5 {
                    reveal_strlit("NFT_G_Hair_22");
                    assert(!("NFT_G_Hair_22"@).contains('C')) by {
                        assert forall|q: int| 0 <= q < "NFT_G_Hair_22"@.len() implies "NFT_G_Hair_22"@[q] != 'C' by {}
                    }
                    assert(!("NFT_G_Hair_22"@).contains('c')) by {
                        assert forall|q: int| 0 <= q < "NFT_G_Hair_22"@.len() implies "NFT_G_Hair_22"@[q] != 'c' by {}
                    }
                    lemma_char_absent_no_substring("NFT_G_Hair_22"@, "Clothes"@, 'C');
                    lemma_char_absent_no_substring("NFT_G_Hair_22"@, "Face"@, 'c');
                } else if i == 6 {
                    reveal_strlit("NFT_G_Hair_23");
                    assert(!("NFT_G_Hair_23"@).contains('C')) by {
                        assert forall|q: int| 0 <= q < "NFT_G_Hair_23"@.len() implies "NFT_G_Hair_23"@[q] != 'C' by {}
                    }
                    assert(!("NFT_G_Hair_23"@).contains('c')) by {
                        assert forall|q: int| 0 <= q < "NFT_G_Hair_23"@.len() implies "NFT_G_Hair_23"@[q] != 'c' by {}
                    }
                    lemma_char_absent_no_substring("NFT_G_Hair_23"@, "Clothes"@, 'C');
                    lemma_char_absent_no_substring("NFT_G_Hair_23"@, "Face"@, 'c');
                } else if i == 7 {
                    reveal_strlit("NFT_G_Hair_24");
                    assert(!("NFT_G_Hair_24"@).contains('C')) by {
                        assert forall|q: int| 0 <= q < "NFT_G_Hair_24"@.len() implies "NFT_G_Hair_24"@[q] != 'C' by {}
                    }
                    assert(!("NFT_G_Hair_24"@).contains('c')) by {
                        assert forall|q: int| 0 <= q < "NFT_G_Hair_24"@.len() implies "NFT_G_Hair_24"@[q] != 'c' by {}
                    }
                    lemma_char_absent_no_substring("NFT_G_Hair_24"@, "Clothes"@, 'C');
                    lemma_char_absent_no_substring("NFT_G_Hair_24"@, "Face"@, 'c');
                } else if i == 8 {
                    reveal_strlit("NFT_G_Hair_25");
                    assert(!("NFT_G_Hair_25"@).contains('C')) by {
                        assert forall|q: int| 0 <= q < "NFT_G_Hair_25"@.len() implies "NFT_G_Hair_25"@[q] != 'C' by {}
                    }
                    assert(!("NFT_G_Hair_25"@).contains('c')) by {
                        assert forall|q: int| 0 <= q < "NFT_G_Hair_25"@.len() implies "NFT_G_Hair_25"@[q] != 'c' by {}
                    }
                    lemma_char_absent_no_substring("NFT_G_Hair_25"@, "Clothes"@, 'C');
                    lemma_char_absent_no_substring("NFT_G_Hair_25"@, "Face"@, 'c');
                } else if i == 9 {
                    reveal_strlit("NFT_G_Hair_26");
                    assert(!("NFT_G_Hair_26"@).contains('C')) by {
                        assert forall|q: int| 0 <= q < "NFT_G_Hair_26"@.len() implies "NFT_G_Hair_26"@[q] != 'C' by {}
                    }
                    assert(!("NFT_G_Hair_26"@).contains('c')) by {
                        assert forall|q: int| 0 <= q < "NFT_G_Hair_26"@.len() implies "NFT_G_Hair_26"@[q] != 'c' by {}
                    }
                    lemma_char_absent_no_substring("NFT_G_Hair_26"@, "Clothes"@, 'C');
                    lemma_char_absent_no_substring("NFT_G_Hair_26"@, "Face"@, 'c');
                } else if i == 10 {
                    reveal_strlit("NFT_G_Hair_27");
                    assert(!("NFT_G_Hair_27"@).contains('C')) by {
                        assert forall|q: int| 0 <= q < "NFT_G_Hair_27"@.len() implies "NFT_G_Hair_27"@[q] != 'C' by {}
                    }
                    assert(!("NFT_G_Hair_27"@).contains('c')) by {
                        assert forall|q: int| 0 <= q < "NFT_G_Hair_27"@.len() implies "NFT_G_Hair_27"@[q] != 'c' by {}
                    }
                    lemma_char_absent_no_substring("NFT_G_Hair_27"@, "Clothes"@, 'C');
                    lemma_char_absent_no_substring("NFT_G_Hair_27"@, "Face"@, 'c');
                } else if i == 11 {
                    reveal_strlit("NFT_G_Hair_28");
                    assert(!("NFT_G_Hair_28"@).contains('C')) by {
                        assert forall|q: int| 0 <= q < "NFT_G_Hair_28"@.len() implies "NFT_G_Hair_28"@[q] != 'C' by {}
                    }
                    assert(!("NFT_G_Hair_28"@).contains('c')) by {
                        assert forall|q: int| 0 <= q < "NFT_G_Hair_28"@.len() implies "NFT_G_Hair_28"@[q] != 'c' by {}
                    }
                    lemma_char_absent_no_substring("NFT_G_Hair_28"@, "Clothes"@, 'C');
                    lemma_char_absent_no_substring("NFT_G_Hair_28"@, "Face"@, 'c');
                } else if i == 12 {
                    reveal_strlit("NFT_G_Hair_29");
                    assert(!("NFT_G_Hair_29"@).contains('C')) by {
                        assert forall|q: int| 0 <= q < "NFT_G_Hair_29"@.len() implies "NFT_G_Hair_29"@[q] != 'C' by {}
                    }
                    assert(!("NFT_G_Hair_29"@).contains('c')) by {
                        assert forall|q: int| 0 <= q < "NFT_G_Hair_29"@.len() implies "NFT_G_Hair_29"@[q] != 'c' by {}
                    }
                    lemma_char_absent_no_substring("NFT_G_Hair_29"@, "Clothes"@, 'C');
                    lemma_char_absent_no_substring("NFT_G_Hair_29"@, "Face"@, 'c');
                } else if i == 13 {
                    reveal_strlit("NFT_G_Hair_30");
                    assert(!("NFT_G_Hair_30"@).contains('C')) by {
                        assert forall|q: int| 0 <= q < "NFT_G_Hair_30"@.len() implies "NFT_G_Hair_30"@[q] != 'C' by {}
                    }
                    assert(!("NFT_G_Hair_30"@).contains('c')) by {
                        assert forall|q: int| 0 <= q < "NFT_G_Hair_30"@.len() implies "NFT_G_Hair_30"@[q] != 'c' by {}
                    }
                    lemma_char_absent_no_substring("NFT_G_Hair_30"@, "Clothes"@, 'C');
                    lemma_char_absent_no_substring("NFT_G_Hair_30"@, "Face"@, 'c');
                } else if i == 14 {
                    reveal_strlit("NFT_G_Hair_31");
                    assert(!("NFT_G_Hair_31"@).contains('C')) by {
                        assert forall|q: int| 0 <= q < "NFT_G_Hair_31"@.len() implies "NFT_G_Hair_31"@[q] != 'C' by {}
                    }
                    assert(!("NFT_G_Hair_31"@).contains('c')) by {
                        assert forall|q: int| 0 <= q < "NFT_G_Hair_31"@.len() implies "NFT_G_Hair_31"@[q] != 'c' by {}
                    }
                    lemma_char_absent_no_substring("NFT_G_Hair_31"@, "Clothes"@, 'C');
                    lemma_char_absent_no_substring("NFT_G_Hair_31"@, "Face"@, 'c');
                }
            },
            Rarity::Uncommon => {
                if i == 0 {
                    reveal_strlit("NFT_G_Hair_4");
                    assert(!("NFT_G_Hair_4"@).contains('C')) by {
                        assert forall|q: int| 0 <= q < "NFT_G_Hair_4"@.len() implies "NFT_G_Hair_4"@[q] != 'C' by {}
                    }
                    assert(!("NFT_G_Hair_4"@).contains('c')) by {
                        assert forall|q: int| 0 <= q < "NFT_G_Hair_4"@.len() implies "NFT_G_Hair_4"@[q] != 'c' by {}
                    }
                    lemma_char_absent_no_substring("NFT_G_Hair_4"@, "Clothes"@, 'C');
                    lemma_char_absent_no_substring("NFT_G_Hair_4"@, "Face"@, 'c');
                } else if i == 1 {
                    reveal_strlit("NFT_G_Hair_5");
                    assert(!("NFT_G_Hair_5"@).contains('C')) by {
                        assert forall|q: int| 0 <= q < "NFT_G_Hair_5"@.len() implies "NFT_G_Hair_5"@[q] != 'C' by {}
                    }
                    assert(!("NFT_G_Hair_5"@).contains('c')) by {
                        assert forall|q: int| 0 <= q < "NFT_G_Hair_5"@.len() implies "NFT_G_Hair_5"@[q] != 'c' by {}
                    }
                    lemma_char_absent_no_substring("NFT_G_Hair_5"@, "Clothes"@, 'C');
                    lemma_char_absent_no_substring("NFT_G_Hair_5"@, "Face"@, 'c');
                } else if i == 2 {
                    reveal_strlit("NFT_G_Hair_6");
                    assert(!("NFT_G_Hair_6"@).contains('C')) by {
                        assert forall|q: int| 0 <= q < "NFT_G_Hair_6"@.len() implies "NFT_G_Hair_6"@[q] != 'C' by {}
                    }
                    assert(!("NFT_G_Hair_6"@).contains('c')) by {
                        assert forall|q: int| 0 <= q < "NFT_G_Hair_6"@.len() implies "NFT_G_Hair_6"@[q] != 'c' by {}
                    }
                    lemma_char_absent_no_substring("NFT_G_Hair_6"@, "Clothes"@, 'C');
                    lemma_char_absent_no_substring("NFT_G_Hair_6"@, "Face"@, 'c');
                } else if i == 3 {
                    reveal_strlit("NFT_G_Hair_7");
                    assert(!("NFT_G_Hair_7"@).contains('C')) by {
                        assert forall|q: int| 0 <= q < "NFT_G_Hair_7"@.len() implies "NFT_G_Hair_7"@[q] != 'C' by {}
                    }
                    assert(!("NFT_G_Hair_7"@).contains('c')) by {
                        assert forall|q: int| 0 <= q < "NFT_G_Hair_7"@.len() implies "NFT_G_Hair_7"@[q] != 'c' by {}
                    }
                    lemma_char_absent_no_substring("NFT_G_Hair_7"@, "Clothes"@, 'C');
                    lemma_char_absent_no_substring("NFT_G_Hair_7"@, "Face"@, 'c');
                } else if i == 4 {
                    reveal_strlit("NFT_G_Hair_8");
                    assert(!("NFT_G_Hair_8"@).contains('C')) by {
                        assert forall|q: int| 0 <= q < "NFT_G_Hair_8"@.len() implies "NFT_G_Hair_8"@[q] != 'C' by {}
                    }
                    assert(!("NFT_G_Hair_8"@).contains('c')) by {
                        assert forall|q: int| 0 <= q < "NFT_G_Hair_8"@.len() implies "NFT_G_Hair_8"@[q] != 'c' by {}
                    }
                    lemma_char_absent_no_substring("NFT_G_Hair_8"@, "Clothes"@, 'C');
                    lemma_char_absent_no_substring("NFT_G_Hair_8"@, "Face"@, 'c');
                } else if i == 5 {
                    reveal_strlit("NFT_G_Hair_9");
                    assert(!("NFT_G_Hair_9"@).contains('C')) by {
                        assert forall|q: int| 0 <= q < "NFT_G_Hair_9"@.len() implies "NFT_G_Hair_9"@[q] != 'C' by {}
                    }
                    assert(!("NFT_G_Hair_9"@).contains('c')) by {
                        assert forall|q: int| 0 <= q < "NFT_G_Hair_9"@.len() implies "NFT_G_Hair_9"@[q] != 'c' by {}
                    }
                    lemma_char_absent_no_substring("NFT_G_Hair_9"@, "Clothes"@, 'C');
                    lemma_char_absent_no_substring("NFT_G_Hair_9"@, "Face"@, 'c');
                } else if i == 6 {
                    reveal_strlit("NFT_G_Hair_10");
                    assert(!("NFT_G_Hair_10"@).contains('C')) by {
                        assert forall|q: int| 0 <= q < "NFT_G_Hair_10"@.len() implies "NFT_G_Hair_10"@[q] != 'C' by {}
                    }
                    assert(!("NFT_G_Hair_10"@).contains('c')) by {
                        assert forall|q: int| 0 <= q < "NFT_G_Hair_10"@.len() implies "NFT_G_Hair_10"@[q] != 'c' by {}
                    }
                    lemma_char_absent_no_substring("NFT_G_Hair_10"@, "Clothes"@, 'C');
                    lemma_char_absent_no_substring("NFT_G_Hair_10"@, "Face"@, 'c');
                } else if i == 7 {
                    reveal_strlit("NFT_G_Hair_13");
                    assert(!("NFT_G_Hair_13"@).contains('C')) by {
                        assert forall|q: int| 0 <= q < "NFT_G_Hair_13"@.len() implies "NFT_G_Hair_13"@[q] != 'C' by {}
                    }
                    assert(!("NFT_G_Hair_13"@).contains('c')) by {
                        assert forall|q: int| 0 <= q < "NFT_G_Hair_13"@.len() implies "NFT_G_Hair_13"@[q] != 'c' by {}
                    }
                    lemma_char_absent_no_substring("NFT_G_Hair_13"@, "Clothes"@, 'C');
                    lemma_char_absent_no_substring("NFT_G_Hair_13"@, "Face"@, 'c');
                } else if i == 8 {
                    reveal_strlit("NFT_G_Hair_14");
                    assert(!("NFT_G_Hair_14"@).contains('C')) by {
                        assert forall|q: int| 0 <= q < "NFT_G_Hair_14"@.len() implies "NFT_G_Hair_14"@[q] != 'C' by {}
                    }
                    assert(!("NFT_G_Hair_14"@).contains('c')) by {
                        assert forall|q: int| 0 <= q < "NFT_G_Hair_14"@.len() implies "NFT_G_Hair_14"@[q] != 'c' by {}
                    }
                    lemma_char_absent_no_substring("NFT_G_Hair_14"@, "Clothes"@, 'C');
                    lemma_char_absent_no_substring("NFT_G_Hair_14"@, "Face"@, 'c');
                } else if i == 9 {
                    reveal_strlit("NFT_G_Hair_15");
                    assert(!("NFT_G_Hair_15"@).contains('C')) by {
                        assert forall|q: int| 0 <= q < "NFT_G_Hair_15"@.len() implies "NFT_G_Hair_15"@[q] != 'C' by {}
                    }
                    assert(!("NFT_G_Hair_15"@).contains('c')) by {
                        assert forall|q: int| 0 <= q < "NFT_G_Hair_15"@.len() implies "NFT_G_Hair_15"@[q] != 'c' by {}
                    }
                    lemma_char_absent_no_substring("NFT_G_Hair_15"@, "Clothes"@, 'C');
                    lemma_char_absent_no_substring("NFT_G_Hair_15"@, "Face"@, 'c');
                } else if i == 10 {
                    reveal_strlit("NFT_G_Hair_16");
                    assert(!("NFT_G_Hair_16"@).contains('C')) by {
                        assert forall|q: int| 0 <= q < "NFT_G_Hair_16"@.len() implies "NFT_G_Hair_16"@[q] != 'C' by {}
                    }
                    assert(!("NFT_G_Hair_16"@).contains('c')) by {
                        assert forall|q: int| 0 <= q < "NFT_G_Hair_16"@.len() implies "NFT_G_Hair_16"@[q] != 'c' by {}
                    }
                    lemma_char_absent_no_substring("NFT_G_Hair_16"@, "Clothes"@, 'C');
                    lemma_char_absent_no_substring("NFT_G_Hair_16"@, "Face"@, 'c');
                } else if i == 11 {
                    reveal_strlit("NFT_G_Hair_32");
                    assert(!("NFT_G_Hair_32"@).contains('C')) by {
                        assert forall|q: int| 0 <= q < "NFT_G_Hair_32"@.len() implies "NFT_G_Hair_32"@[q] != 'C' by {}
                    }
                    assert(!("NFT_G_Hair_32"@).contains('c')) by {
                        assert forall|q: int| 0 <= q < "NFT_G_Hair_32"@.len() implies "NFT_G_Hair_32"@[q] != 'c' by {}
                    }
                    lemma_char_absent_no_substring("NFT_G_Hair_32"@, "Clothes"@, 'C');
                    lemma_char_absent_no_substring("NFT_G_Hair_32"@, "Face"@, 'c');
                } else if i == 12 {
                    reveal_strlit("NFT_G_Hair_33");
                    assert(!("NFT_G_Hair_33"@).contains('C')) by {
                        assert forall|q: int| 0 <= q < "NFT_G_Hair_33"@.len() implies "NFT_G_Hair_33"@[q] != 'C' by {}
                    }
                    assert(!("NFT_G_Hair_33"@).contains('c')) by {
                        assert forall|q: int| 0 <= q < "NFT_G_Hair_33"@.len() implies "NFT_G_Hair_33"@[q] != 'c' by {}
                    }
                    lemma_char_absent_no_substring("NFT_G_Hair_33"@, "Clothes"@, 'C');
                    lemma_char_absent_no_substring("NFT_G_Hair_33"@, "Face"@, 'c');
                } else if i == 13 {
                    reveal_strlit("NFT_G_Hair_37");
                    assert(!("NFT_G_Hair_37"@).contains('C')) by {
                        assert forall|q: int| 0 <= q < "NFT_G_Hair_37"@.len() implies "NFT_G_Hair_37"@[q] != 'C' by {}
                    }
                    assert(!("NFT_G_Hair_37"@).contains('c')) by {
                        assert forall|q: int| 0 <= q < "NFT_G_Hair_37"@.len() implies "NFT_G_Hair_37"@[q] != 'c' by {}
                    }
                    lemma_char_absent_no_substring("NFT_G_Hair_37"@, "Clothes"@, 'C');
                    lemma_char_absent_no_substring("NFT_G_Hair_37"@, "Face"@, 'c');
                } else if i == 14 {
                    reveal_strlit("NFT_G_Hair_38");
                    assert(!("NFT_G_Hair_38"@).contains('C')) by {
                        assert forall|q: int| 0 <= q < "NFT_G_Hair_38"@.len() implies "NFT_G_Hair_38"@[q] != 'C' by {}
                    }
                    assert(!("NFT_G_Hair_38"@).contains('c')) by {
                        assert forall|q: int| 0 <= q < "NFT_G_Hair_38"@.len() implies "NFT_G_Hair_38"@[q] != 'c' by {}
                    }
                    lemma_char_absent_no_substring("NFT_G_Hair_38"@, "Clothes"@, 'C');
                    lemma_char_absent_no_substring("NFT_G_Hair_38"@, "Face"@, 'c');
                } else if i == 15 {
                    reveal_strlit("NFT_G_Hair_39");
                    assert(!("NFT_G_Hair_39"@).contains('C')) by {
                        assert forall|q: int| 0 <= q < "NFT_G_Hair_39"@.len() implies "NFT_G_Hair_39"@[q] != 'C' by {}
                    }
                    assert(!("NFT_G_Hair_39"@).contains('c')) by {
                        assert forall|q: int| 0 <= q < "NFT_G_Hair_39"@.len() implies "NFT_G_Hair_39"@[q] != 'c' by {}
                    }
                    lemma_char_absent_no_substring("NFT_G_Hair_39"@, "Clothes"@, 'C');
                    lemma_char_absent_no_substring("NFT_G_Hair_39"@, "Face"@, 'c');
                } else if i == 16 {
                    reveal_strlit("NFT_G_Hair_40");
                    assert(!("NFT_G_Hair_40"@).contains('C')) by {
                        assert forall|q: int| 0 <= q < "NFT_G_Hair_40"@.len() implies "NFT_G_Hair_40"@[q] != 'C' by {}
                    }
                    assert(!("NFT_G_Hair_40"@).contains('c')) by {
                        assert forall|q: int| 0 <= q < "NFT_G_Hair_40"@.len() implies "NFT_G_Hair_40"@[q] != 'c' by {}
                    }
                    lemma_char_absent_no_substring("NFT_G_Hair_40"@, "Clothes"@, 'C');
                    lemma_char_absent_no_substring("NFT_G_Hair_40"@, "Face"@, 'c');
                } else if i == 17 {
                    reveal_strlit("NFT_G_Hair_41");
                    assert(!("NFT_G_Hair_41"@).contains('C')) by {
                        assert forall|q: int| 0 <= q < "NFT_G_Hair_41"@.len() implies "NFT_G_Hair_41"@[q] != 'C' by {}
                    }
                    assert(!("NFT_G_Hair_41"@).contains('c')) by {
                        assert forall|q: int| 0 <= q < "NFT_G_Hair_41"@.len() implies "NFT_G_Hair_41"@[q] != 'c' by {}
                    }
                    lemma_char_absent_no_substring("NFT_G_Hair_41"@, "Clothes"@, 'C');
                    lemma_char_absent_no_substring("NFT_G_Hair_41"@, "Face"@, 'c');
                } else if i == 18 {
                    reveal_strlit("NFT_G_Hair_42");
                    assert(!("NFT_G_Hair_42"@).contains('C')) by {
                        assert forall|q: int| 0 <= q < "NFT_G_Hair_42"@.len() implies "NFT_G_Hair_42"@[q] != 'C' by {}
                    }
                    assert(!("NFT_G_Hair_42"@).contains('c')) by {
                        assert forall|q: int| 0 <= q < "NFT_G_Hair_42"@.len() implies "NFT_G_Hair_42"@[q] != 'c' by {}
                    }
                    lemma_char_absent_no_substring("NFT_G_Hair_42"@, "Clothes"@, 'C');
                    lemma_char_absent_no_substring("NFT_G_Hair_42"@, "Face"@, 'c');
                }
            },
            Rarity::Rare => {
                if i == 0 {
                    reveal_strlit("NFT_G_Hair_34");
                    assert(!("NFT_G_Hair_34"@).contains('C')) by {
                        assert forall|q: int| 0 <= q < "NFT_G_Hair_34"@.len() implies "NFT_G_Hair_34"@[q] != 'C' by {}
                    }
                    assert(!("NFT_G_Hair_34"@).contains('c')) by {
                        assert forall|q: int| 0 <= q < "NFT_G_Hair_34"@.len() implies "NFT_G_Hair_34"@[q] != 'c' by {}
                    }
                    lemma_char_absent_no_substring("NFT_G_Hair_34"@, "Clothes"@, 'C');
                    lemma_char_absent_no_substring("NFT_G_Hair_34"@, "Face"@, 'c');
                } else if i == 1 {
                    reveal_strlit("NFT_G_Hair_35");
                    assert(!("NFT_G_Hair_35"@).contains('C')) by {
                        assert forall|q: int| 0 <= q < "NFT_G_Hair_35"@.len() implies "NFT_G_Hair_35"@[q] != 'C' by {}
                    }
                    assert(!("NFT_G_Hair_35"@).contains('c')) by {
                        assert forall|q: int| 0 <= q < "NFT_G_Hair_35"@.len() implies "NFT_G_Hair_35"@[q] != 'c' by {}
                    }
                    lemma_char_absent_no_substring("NFT_G_Hair_35"@, "Clothes"@, 'C');
                    lemma_char_absent_no_substring("NFT_G_Hair_35"@, "Face"@, 'c');
                } else if i == 2 {
                    reveal_strlit("NFT_G_Hair_36");
                    assert(!("NFT_G_Hair_36"@).contains('C')) by {
                        assert forall|q: int| 0 <= q < "NFT_G_Hair_36"@.len() implies "NFT_G_Hair_36"@[q] != 'C' by {}
                    }
                    assert(!("NFT_G_Hair_36"@).contains('c')) by {
                        assert forall|q: int| 0 <= q < "NFT_G_Hair_36"@.len() implies "NFT_G_Hair_36"@[q] != 'c' by {}
                    }
                    lemma_char_absent_no_substring("NFT_G_Hair_36"@, "Clothes"@, 'C');
                    lemma_char_absent_no_substring("NFT_G_Hair_36"@, "Face"@, 'c');
                }
            },
            Rarity::Epic => {
                if i == 0 {
                    reveal_strlit("NFT_G_Hair_1");
                    assert(!("NFT_G_Hair_1"@).contains('C')) by {
                        assert forall|q: int| 0 <= q < "NFT_G_Hair_1"@.len() implies "NFT_G_Hair_1"@[q] != 'C' by {}
                    }
                    assert(!("NFT_G_Hair_1"@).contains('c')) by {
                        assert forall|q: int| 0 <= q < "NFT_G_Hair_1"@.len() implies "NFT_G_Hair_1"@[q] != 'c' by {}
                    }
                    lemma_char_absent_no_substring("NFT_G_Hair_1"@, "Clothes"@, 'C');
                    lemma_char_absent_no_substring("NFT_G_Hair_1"@, "Face"@, 'c');
                } else if i == 1 {
                    reveal_strlit("NFT_G_Hair_2");
                    assert(!("NFT_G_Hair_2"@).contains('C')) by {
                        assert forall|q: int| 0 <= q < "NFT_G_Hair_2"@.len() implies "NFT_G_Hair_2"@[q] != 'C' by {}
                    }
                    assert(!("NFT_G_Hair_2"@).contains('c')) by {
                        assert forall|q: int| 0 <= q < "NFT_G_Hair_2"@.len() implies "NFT_G_Hair_2"@[q] != 'c' by {}
                    }
                    lemma_char_absent_no_substring("NFT_G_Hair_2"@, "Clothes"@, 'C');
                    lemma_char_absent_no_substring("NFT_G_Hair_2"@, "Face"@, 'c');
                } else if i == 2 {
                    reveal_strlit("NFT_G_Hair_3");
                    assert(!("NFT_G_Hair_3"@).contains('C')) by {
                        assert forall|q: int| 0 <= q < "NFT_G_Hair_3"@.len() implies "NFT_G_Hair_3"@[q] != 'C' by {}
                    }
                    assert(!("NFT_G_Hair_3"@).contains('c')) by {
                        assert forall|q: int| 0 <= q < "NFT_G_Hair_3"@.len() implies "NFT_G_Hair_3"@[q] != 'c' by {}
                    }
                    lemma_char_absent_no_substring("NFT_G_Hair_3"@, "Clothes"@, 'C');
                    lemma_char_absent_no_substring("NFT_G_Hair_3"@, "Face"@, 'c');
                } else if i == 3 {
                    reveal_strlit("NFT_G_Hair_11");
                    assert(!("NFT_G_Hair_11"@).contains('C')) by {
                        assert forall|q: int| 0 <= q < "NFT_G_Hair_11"@.len() implies "NFT_G_Hair_11"@[q] != 'C' by {}
                    }
                    assert(!("NFT_G_Hair_11"@).contains('c')) by {
                        assert forall|q: int| 0 <= q < "NFT_G_Hair_11"@.len() implies "NFT_G_Hair_11"@[q] != 'c' by {}
                    }
                    lemma_char_absent_no_substring("NFT_G_Hair_11"@, "Clothes"@, 'C');
                    lemma_char_absent_no_substring("NFT_G_Hair_11"@, "Face"@, 'c');
                } else if i == 4 {
                    reveal_strlit("NFT_G_Hair_12");
                    assert(!("NFT_G_Hair_12"@).contains('C')) by {
                        assert forall|q: int| 0 <= q < "NFT_G_Hair_12"@.len() implies "NFT_G_Hair_12"@[q] != 'C' by {}
                    }
                    assert(!("NFT_G_Hair_12"@).contains('c')) by {
                        assert forall|q: int| 0 <= q < "NFT_G_Hair_12"@.len() implies "NFT_G_Hair_12"@[q] != 'c' by {}
                    }
                    lemma_char_absent_no_substring("NFT_G_Hair_12"@, "Clothes"@, 'C');
                    lemma_char_absent_no_substring("NFT_G_Hair_12"@, "Face"@, 'c');
                }
            },
            Rarity::Legendary => {
                if i == 0 {
                    reveal_strlit("NFT_G_Hair_43");
                    assert(!("NFT_G_Hair_43"@).contains('C')) by {
                        assert forall|q: int| 0 <= q < "NFT_G_Hair_43"@.len() implies "NFT_G_Hair_43"@[q] != 'C' by {}
                    }
                    assert(!("NFT_G_Hair_43"@).contains('c')) by {
                        assert forall|q: int| 0 <= q < "NFT_G_Hair_43"@.len() implies "NFT_G_Hair_43"@[q] != 'c' by {}
                    }
                    lemma_char_absent_no_substring("NFT_G_Hair_43"@, "Clothes"@, 'C');
                    lemma_char_absent_no_substring("NFT_G_Hair_43"@, "Face"@, 'c');
                } else if i == 1 {
                    reveal_strlit("NFT_G_Hair_45");
                    assert(!("NFT_G_Hair_45"@).contains('C')) by {
                        assert forall|q: int| 0 <= q < "NFT_G_Hair_45"@.len() implies "NFT_G_Hair_45"@[q] != 'C' by {}
                    }
                    assert(!("NFT_G_Hair_45"@).contains('c')) by {
                        assert forall|q: int| 0 <= q < "NFT_G_Hair_45"@.len() implies "NFT_G_Hair_45"@[q] != 'c' by {}
                    }
                    lemma_char_absent_no_substring("NFT_G_Hair_45"@, "Clothes"@, 'C');
                    lemma_char_absent_no_substring("NFT_G_Hair_45"@, "Face"@, 'c');
                }
            },
            Rarity::Mythical => {
                if i == 0 {
                    reveal_strlit("NFT_G_Hair_44");
                    assert(!("NFT_G_Hair_44"@).contains('C')) by {
                        assert forall|q: int| 0 <= q < "NFT_G_Hair_44"@.len() implies "NFT_G_Hair_44"@[q] != 'C' by {}
                    }
                    assert(!("NFT_G_Hair_44"@).contains('c')) by {
                        assert forall|q: int| 0 <= q < "NFT_G_Hair_44"@.len() implies "NFT_G_Hair_44"@[q] != 'c' by {}
                    }
                    lemma_char_absent_no_substring("NFT_G_Hair_44"@, "Clothes"@, 'C');
                    lemma_char_absent_no_substring("NFT_G_Hair_44"@, "Face"@, 'c');
                } else if i == 1 {
                    reveal_strlit("NFT_G_Hair_46");
                    assert(!("NFT_G_Hair_46"@).contains('C')) by {
                        assert forall|q: int| 0 <= q < "NFT_G_Hair_46"@.len() implies "NFT_G_Hair_46"@[q] != 'C' by {}
                    }
                    assert(!("NFT_G_Hair_46"@).contains('c')) by {
                        assert forall|q: int| 0 <= q < "NFT_G_Hair_46"@.len() implies "NFT_G_Hair_46"@[q] != 'c' by {}
                    }
                    lemma_char_absent_no_substring("NFT_G_Hair_46"@, "Clothes"@, 'C');
                    lemma_char_absent_no_substring("NFT_G_Hair_46"@, "Face"@, 'c');
                }
            },
        },
    }
}

proof fn lemma_head_phone_marker(r: Rarity, i: int)
    requires
        0 <= i < spec_head_phone(r).len(),
    ensures
        !spec_has_substring(spec_head_phone(r)[i], "Clothes"@),
        !spec_has_substring(spec_head_phone(r)[i], "Face"@),
{
    reveal_strlit("Clothes");
    reveal_strlit("Face");
    assert("Clothes"@.contains('C')) by {
        assert("Clothes"@[0] == 'C');
    }
    assert("Face"@.contains('c')) by {
        assert("Face"@[2] == 'c');
    }
    match r {
        Rarity::Common => {
        },
        Rarity::Uncommon => {
            if i == 0 {
                reveal_strlit("NFT_Head_Phone_1");
                assert(!("NFT_Head_Phone_1"@).contains('C')) by {
                    assert forall|q: int| 0 <= q < "NFT_Head_Phone_1"@.len() implies "NFT_Head_Phone_1"@[q] != 'C' by {}
                }
                assert(!("NFT_Head_Phone_1"@).contains('c')) by {
                    assert forall|q: int| 0 <= q < "NFT_Head_Phone_1"@.len() implies "NFT_Head_Phone_1"@[q] != 'c' by {}
                }
                lemma_char_absent_no_substring("NFT_Head_Phone_1"@, "Clothes"@, 'C');
                lemma_char_absent_no_substring("NFT_Head_Phone_1"@, "Face"@, 'c');
            }
        },
        Rarity::Rare => {
            if i == 0 {
                reveal_strlit("NFT_Head_Phone_2");
                assert(!("NFT_Head_Phone_2"@).contains('C')) by {
                    assert forall|q: int| 0 <= q < "NFT_Head_Phone_2"@.len() implies "NFT_Head_Phone_2"@[q] != 'C' by {}
                }
                assert(!("NFT_Head_Phone_2"@).contains('c')) by {
                    assert forall|q: int| 0 <= q < "NFT_Head_Phone_2"@.len() implies "NFT_Head_Phone_2"@[q] != 'c' by {}
                }
                lemma_char_absent_no_substring("NFT_Head_Phone_2"@, "Clothes"@, 'C');
                lemma_char_absent_no_substring("NFT_Head_Phone_2"@, "Face"@, 'c');
            }
        },
        Rarity::Epic => {
            if i == 0 {
                reveal_strlit("NFT_Head_Phone_3");
                assert(!("NFT_Head_Phone_3"@).contains('C')) by {
                    assert forall|q: int| 0 <= q < "NFT_Head_Phone_3"@.len() implies "NFT_Head_Phone_3"@[q] != 'C' by {}
                }
                assert(!("NFT_Head_Phone_3"@).contains('c')) by {
                    assert forall|q: int| 0 <= q < "NFT_Head_Phone_3"@.len() implies "NFT_Head_Phone_3"@[q] != 'c' by {}
                }
                lemma_char_absent_no_substring("NFT_Head_Phone_3"@, "Clothes"@, 'C');
                lemma_char_absent_no_substring("NFT_Head_Phone_3"@, "Face"@, 'c');
            }
        },
        Rarity::Legendary => {
            if i == 0 {
                reveal_strlit("NFT_Head_Phone_4");
                assert(!("NFT_Head_Phone_4"@).contains('C')) by {
                    assert forall|q: int| 0 <= q < "NFT_Head_Phone_4"@.len() implies "NFT_Head_Phone_4"@[q] != 'C' by {}
                }
                assert(!("NFT_Head_Phone_4"@).contains('c')) by {
                    assert forall|q: int| 0 <= q < "NFT_Head_Phone_4"@.len() implies "NFT_Head_Phone_4"@[q] != 'c' by {}
                }
                lemma_char_absent_no_substring("NFT_Head_Phone_4"@, "Clothes"@, 'C');
                lemma_char_absent_no_substring("NFT_Head_Phone_4"@, "Face"@, 'c');
            }
        },
        Rarity::Mythical => {
            if i == 0 {
                reveal_strlit("NFT_Head_Phone_5");
                assert(!("NFT_Head_Phone_5"@).contains('C')) by {
                    assert forall|q: int| 0 <= q < "NFT_Head_Phone_5"@.len() implies "NFT_Head_Phone_5"@[q] != 'C' by {}
                }
                assert(!("NFT_Head_Phone_5"@).contains('c')) by {
                    assert forall|q: int| 0 <= q < "NFT_Head_Phone_5"@.len() implies "NFT_Head_Phone_5"@[q] != 'c' by {}
                }
                lemma_char_absent_no_substring("NFT_Head_Phone_5"@, "Clothes"@, 'C');
                lemma_char_absent_no_substring("NFT_Head_Phone_5"@, "Face"@, 'c');
            }
        },
    }
}


/// Every Clothes catalog identifier carries the Clothes marker.
pub proof fn lemma_clothes_identifier_marked(g: Gender, r: Rarity, i: int)
    requires
        0 <= i < spec_variants(g, TraitCategory::Clothes, r).len(),
    ensures
        spec_has_substring(spec_variants(g, TraitCategory::Clothes, r)[i], "Clothes"@),
{
    lemma_clothes_marker(g, r, i);
}

/// Every Face and FaceAcc catalog identifier carries the Face marker, so
/// the Face filter removes both layers.
pub proof fn lemma_face_identifier_marked(g: Gender, c: TraitCategory, r: Rarity, i: int)
    requires
        c == TraitCategory::Face || c == TraitCategory::FaceAcc,
        0 <= i < spec_variants(g, c, r).len(),
    ensures
        spec_has_substring(spec_variants(g, c, r)[i], "Face"@),
{
    if c == TraitCategory::Face {
        lemma_face_marker(g, r, i);
    } else {
        lemma_face_acc_marker(r, i);
    }
}

/// No catalog identifier outside the Clothes category carries the Clothes
/// marker.
pub proof fn lemma_no_clothes_marker(g: Gender, c: TraitCategory, r: Rarity, i: int)
    requires
        c != TraitCategory::Clothes,
        0 <= i < spec_variants(g, c, r).len(),
    ensures
        !spec_has_substring(spec_variants(g, c, r)[i], "Clothes"@),
{
    match c {
        TraitCategory::Background => lemma_background_marker(r, i),
        TraitCategory::Hand => lemma_hand_marker(r, i),
        TraitCategory::HairLong => lemma_hair_long_marker(g, r, i),
        TraitCategory::Body => lemma_body_marker(r, i),
        TraitCategory::Clothes => {},
        TraitCategory::Face => lemma_face_marker(g, r, i),
        TraitCategory::FaceAcc => lemma_face_acc_marker(r, i),
        TraitCategory::Hair => lemma_hair_marker(g, r, i),
        TraitCategory::HeadPhone => lemma_head_phone_marker(r, i),
    }
}

/// No catalog identifier outside Face and FaceAcc carries the Face marker.
pub proof fn lemma_no_face_marker(g: Gender, c: TraitCategory, r: Rarity, i: int)
    requires
        c != TraitCategory::Face,
        c != TraitCategory::FaceAcc,
        0 <= i < spec_variants(g, c, r).len(),
    ensures
        !spec_has_substring(spec_variants(g, c, r)[i], "Face"@),
{
    match c {
        TraitCategory::Background => lemma_background_marker(r, i),
        TraitCategory::Hand => lemma_hand_marker(r, i),
        TraitCategory::HairLong => lemma_hair_long_marker(g, r, i),
        TraitCategory::Body => lemma_body_marker(r, i),
        TraitCategory::Clothes => lemma_clothes_marker(g, r, i),
        TraitCategory::Face => {},
        TraitCategory::FaceAcc => {},
        TraitCategory::Hair => lemma_hair_marker(g, r, i),
        TraitCategory::HeadPhone => lemma_head_phone_marker(r, i),
    }
}

proof fn lemma_catalog_entry_no_markers(g: Gender, c: TraitCategory, t: Seq<char>)
    requires
        c != TraitCategory::Clothes,
        c != TraitCategory::Face,
        c != TraitCategory::FaceAcc,
        spec_from_catalog(g, c, t),
    ensures
        !spec_has_substring(t, "Clothes"@),
        !spec_has_substring(t, "Face"@),
{
    let (r, i): (Rarity, int) = choose|r: Rarity, i: int|
        0 <= i < spec_variants(g, c, r).len() && t == #[trigger] spec_variants(g, c, r)[i];
    lemma_no_clothes_marker(g, c, r, i);
    lemma_no_face_marker(g, c, r, i);
}

proof fn lemma_catalog_clothes_entry(g: Gender, t: Seq<char>)
    requires
        spec_from_catalog(g, TraitCategory::Clothes, t),
    ensures
        spec_has_substring(t, "Clothes"@),
        !spec_has_substring(t, "Face"@),
{
    let (r, i): (Rarity, int) = choose|r: Rarity, i: int|
        0 <= i < spec_variants(g, TraitCategory::Clothes, r).len() && t
            == #[trigger] spec_variants(g, TraitCategory::Clothes, r)[i];
    lemma_clothes_identifier_marked(g, r, i);
    lemma_no_face_marker(g, TraitCategory::Clothes, r, i);
}

/// The Face filter keeps a list whole when no entry carries the marker.
proof fn lemma_strip_face_keeps_all(es: Seq<Seq<char>>)
    requires
        forall|j: int| 0 <= j < es.len() ==> !spec_has_substring(#[trigger] es[j], "Face"@),
    ensures
        spec_strip_face(es) =~= es,
    decreases es.len(),
{
    reveal_with_fuel(Seq::<_>::filter, 3);
    if es.len() > 0 {
        assert forall|j: int|
            0 <= j < es.drop_last().len() implies !spec_has_substring(
            #[trigger] es.drop_last()[j],
            "Face"@,
        ) by {
            assert(es.drop_last()[j] == es[j]);
        }
        lemma_strip_face_keeps_all(es.drop_last());
        assert(!spec_has_substring(es.last(), "Face"@));
    }
}

/// The emotion pipeline's anchor holds of every generated manifest: the
/// Face filter keeps the Clothes entry, no kept entry before it carries
/// the Clothes marker, so the expansion's search lands exactly on the
/// Clothes entry of the manifest.
pub proof fn lemma_manifest_emotion_anchor(m: Manifest, g: Gender)
    requires
        m.wf(g),
    ensures
        ({
            let kept = spec_strip_face(spec_entries(slot_views(m.slots@)));
            &&& 0 <= spec_first_with(kept, "Clothes"@) < kept.len()
            &&& kept[spec_first_with(kept, "Clothes"@)] == m.slot(TraitCategory::Clothes)->Some_0
        }),
{
    let slots = slot_views(m.slots@);
    let es = spec_entries(slots);
    let ci = TraitCategory::Clothes.spec_index();
    let a = slots.take(ci);
    let b = slots.skip(ci);
    assert(slots =~= a + b);
    lemma_entries_concat(a, b);
    assert(m.slot(TraitCategory::Clothes) is Some);
    let cv = m.slot(TraitCategory::Clothes)->Some_0;
    assert(b[0] == slots[ci]);
    assert(b[0] == Option::Some(cv));
    let rest = spec_entries(b.drop_first());
    assert(spec_entries(b) == seq![cv] + rest);
    let ea = spec_entries(a);
    assert(es =~= ea + (seq![cv] + rest));
    assert forall|j: int|
        0 <= j < ea.len() implies !spec_has_substring(#[trigger] ea[j], "Face"@)
        && !spec_has_substring(ea[j], "Clothes"@) by {
        lemma_entries_membership(a, j);
        let i0 = choose|i0: int| 0 <= i0 < a.len() && #[trigger] a[i0] == Option::Some(ea[j]);
        assert(a[i0] == slots[i0]);
        if i0 == TraitCategory::Background.spec_index() {
            assert(m.slot(TraitCategory::Background) == Option::Some(ea[j]));
            lemma_catalog_entry_no_markers(g, TraitCategory::Background, ea[j]);
        } else if i0 == TraitCategory::Hand.spec_index() {
            assert(m.slot(TraitCategory::Hand) == Option::Some(ea[j]));
            lemma_catalog_entry_no_markers(g, TraitCategory::Hand, ea[j]);
        } else if i0 == TraitCategory::HairLong.spec_index() {
            assert(m.slot(TraitCategory::HairLong) == Option::Some(ea[j]));
            lemma_catalog_entry_no_markers(g, TraitCategory::HairLong, ea[j]);
        } else {
            assert(i0 == TraitCategory::Body.spec_index());
            assert(m.slot(TraitCategory::Body) == Option::Some(ea[j]));
            lemma_catalog_entry_no_markers(g, TraitCategory::Body, ea[j]);
        }
    }
    assert(spec_from_catalog(g, TraitCategory::Clothes, cv));
    lemma_catalog_clothes_entry(g, cv);
    let pred = |t: Seq<char>| !spec_has_substring(t, "Face"@);
    assert(spec_strip_face(es) == es.filter(pred));
    assert(es == ea + (seq![cv] + rest));
    Seq::<Seq<char>>::filter_distributes_over_add(ea, seq![cv] + rest, pred);
    Seq::<Seq<char>>::filter_distributes_over_add(seq![cv], rest, pred);
    assert(ea.filter(pred) == spec_strip_face(ea));
    assert(seq![cv].filter(pred) == spec_strip_face(seq![cv]));
    lemma_strip_face_keeps_all(ea);
    assert forall|j: int|
        0 <= j < seq![cv].len() implies !spec_has_substring(#[trigger] seq![cv][j], "Face"@) by {
        assert(seq![cv][j] == cv);
    }
    lemma_strip_face_keeps_all(seq![cv]);
    let kept = spec_strip_face(es);
    assert(kept =~= ea + seq![cv] + rest.filter(pred));
    assert(kept[ea.len() as int] == cv);
    assert forall|j: int|
        0 <= j < ea.len() implies !spec_has_substring(#[trigger] kept[j], "Clothes"@) by {
        assert(kept[j] == ea[j]);
    }
    lemma_first_with_found(kept, "Clothes"@, ea.len() as int);
}

} // verus!

