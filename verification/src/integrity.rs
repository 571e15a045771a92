//! Every catalog identifier is clean of the log format's decoration
//! characters, so a generated manifest survives the write-and-parse round
//! trip of the store exactly.

use vstd::prelude::*;

use crate::catalog::{
    spec_background, spec_body, spec_clothes, spec_face, spec_face_acc, spec_hair,
    spec_hair_long, spec_hand, spec_head_phone, spec_variants,
};
use crate::kinds::{Gender, Rarity, TraitCategory};
use crate::manifest::{lemma_entry_at, slot_views, spec_entries, Manifest};
use crate::rules::lemma_derive_hair_catalog;
use crate::sample::spec_from_catalog;
use crate::store::{
    lemma_format_line_wf, lemma_line_round_trip, spec_entry_clean, spec_format_line,
    spec_line_wf, spec_parse_line,
};
use crate::strutil::is_stripped_char;

verus! {

proof fn lemma_background_clean(r: Rarity, i: int)
    requires
        0 <= i < spec_background(r).len(),
    ensures
        spec_entry_clean(spec_background(r)[i]),
{
    match r {
        Rarity::Common => {
            if i == 0 {
                reveal_strlit("NFT_BG_1");
                assert(spec_entry_clean("NFT_BG_1"@)) by {
                    assert forall|q: int| 0 <= q < "NFT_BG_1"@.len() implies !is_stripped_char(
                        #[trigger] "NFT_BG_1"@[q],
                    ) && "NFT_BG_1"@[q] != ',' by {}
                }
            } else if i == 1 {
                reveal_strlit("NFT_BG_2");
                assert(spec_entry_clean("NFT_BG_2"@)) by {
                    assert forall|q: int| 0 <= q < "NFT_BG_2"@.len() implies !is_stripped_char(
                        #[trigger] "NFT_BG_2"@[q],
                    ) && "NFT_BG_2"@[q] != ',' by {}
                }
            } else if i == 2 {
                reveal_strlit("NFT_BG_3");
                assert(spec_entry_clean("NFT_BG_3"@)) by {
                    assert forall|q: int| 0 <= q < "NFT_BG_3"@.len() implies !is_stripped_char(
                        #[trigger] "NFT_BG_3"@[q],
                    ) && "NFT_BG_3"@[q] != ',' by {}
                }
            } else if i == 3 {
                reveal_strlit("NFT_BG_4");
                assert(spec_entry_clean("NFT_BG_4"@)) by {
                    assert forall|q: int| 0 <= q < "NFT_BG_4"@.len() implies !is_stripped_char(
                        #[trigger] "NFT_BG_4"@[q],
                    ) && "NFT_BG_4"@[q] != ',' by {}
                }
            }
        },
        Rarity::Uncommon => {
        },
        Rarity::Rare => {
            if i == 0 {
                reveal_strlit("NFT_BG_5");
                assert(spec_entry_clean("NFT_BG_5"@)) by {
                    assert forall|q: int| 0 <= q < "NFT_BG_5"@.len() implies !is_stripped_char(
                        #[trigger] "NFT_BG_5"@[q],
                    ) && "NFT_BG_5"@[q] != ',' by {}
                }
            } else if i == 1 {
                reveal_strlit("NFT_BG_6");
                assert(spec_entry_clean("NFT_BG_6"@)) by {
                    assert forall|q: int| 0 <= q < "NFT_BG_6"@.len() implies !is_stripped_char(
                        #[trigger] "NFT_BG_6"@[q],
                    ) && "NFT_BG_6"@[q] != ',' by {}
                }
            }
        },
        Rarity::Epic => {
            if i == 0 {
                reveal_strlit("NFT_BG_7");
                assert(spec_entry_clean("NFT_BG_7"@)) by {
                    assert forall|q: int| 0 <= q < "NFT_BG_7"@.len() implies !is_stripped_char(
                        #[trigger] "NFT_BG_7"@[q],
                    ) && "NFT_BG_7"@[q] != ',' by {}
                }
            } else if i == 1 {
                reveal_strlit("NFT_BG_9");
                assert(spec_entry_clean("NFT_BG_9"@)) by {
                    assert forall|q: int| 0 <= q < "NFT_BG_9"@.len() implies !is_stripped_char(
                        #[trigger] "NFT_BG_9"@[q],
                    ) && "NFT_BG_9"@[q] != ',' by {}
                }
            } else if i == 2 {
                reveal_strlit("NFT_BG_10");
                assert(spec_entry_clean("NFT_BG_10"@)) by {
                    assert forall|q: int| 0 <= q < "NFT_BG_10"@.len() implies !is_stripped_char(
                        #[trigger] "NFT_BG_10"@[q],
                    ) && "NFT_BG_10"@[q] != ',' by {}
                }
            }
        },
        Rarity::Legendary => {
            if i == 0 {
                reveal_strlit("NFT_BG_12");
                assert(spec_entry_clean("NFT_BG_12"@)) by {
                    assert forall|q: int| 0 <= q < "NFT_BG_12"@.len() implies !is_stripped_char(
                        #[trigger] "NFT_BG_12"@[q],
                    ) && "NFT_BG_12"@[q] != ',' by {}
                }
            }
        },
        Rarity::Mythical => {
            if i == 0 {
                reveal_strlit("NFT_BG_8");
                assert(spec_entry_clean("NFT_BG_8"@)) by {
                    assert forall|q: int| 0 <= q < "NFT_BG_8"@.len() implies !is_stripped_char(
                        #[trigger] "NFT_BG_8"@[q],
                    ) && "NFT_BG_8"@[q] != ',' by {}
                }
            } else if i == 1 {
                reveal_strlit("NFT_BG_11");
                assert(spec_entry_clean("NFT_BG_11"@)) by {
                    assert forall|q: int| 0 <= q < "NFT_BG_11"@.len() implies !is_stripped_char(
                        #[trigger] "NFT_BG_11"@[q],
                    ) && "NFT_BG_11"@[q] != ',' by {}
                }
            }
        },
    }
}

proof fn lemma_hand_clean(r: Rarity, i: int)
    requires
        0 <= i < spec_hand(r).len(),
    ensures
        spec_entry_clean(spec_hand(r)[i]),
{
    match r {
        Rarity::Common => {
            if i == 0 {
                reveal_strlit("NFT_Hand_1");
                assert(spec_entry_clean("NFT_Hand_1"@)) by {
                    assert forall|q: int| 0 <= q < "NFT_Hand_1"@.len() implies !is_stripped_char(
                        #[trigger] "NFT_Hand_1"@[q],
                    ) && "NFT_Hand_1"@[q] != ',' by {}
                }
            } else if i == 1 {
                reveal_strlit("NFT_Hand_2");
                assert(spec_entry_clean("NFT_Hand_2"@)) by {
                    assert forall|q: int| 0 <= q < "NFT_Hand_2"@.len() implies !is_stripped_char(
                        #[trigger] "NFT_Hand_2"@[q],
                    ) && "NFT_Hand_2"@[q] != ',' by {}
                }
            }
        },
        Rarity::Uncommon => {
            if i == 0 {
                reveal_strlit("NFT_Hand_3");
                assert(spec_entry_clean("NFT_Hand_3"@)) by {
                    assert forall|q: int| 0 <= q < "NFT_Hand_3"@.len() implies !is_stripped_char(
                        #[trigger] "NFT_Hand_3"@[q],
                    ) && "NFT_Hand_3"@[q] != ',' by {}
                }
            } else if i == 1 {
                reveal_strlit("NFT_Hand_4");
                assert(spec_entry_clean("NFT_Hand_4"@)) by {
                    assert forall|q: int| 0 <= q < "NFT_Hand_4"@.len() implies !is_stripped_char(
                        #[trigger] "NFT_Hand_4"@[q],
                    ) && "NFT_Hand_4"@[q] != ',' by {}
                }
            }
        },
        Rarity::Rare => {
            if i == 0 {
                reveal_strlit("NFT_Hand_5");
                assert(spec_entry_clean("NFT_Hand_5"@)) by {
                    assert forall|q: int| 0 <= q < "NFT_Hand_5"@.len() implies !is_stripped_char(
                        #[trigger] "NFT_Hand_5"@[q],
                    ) && "NFT_Hand_5"@[q] != ',' by {}
                }
            } else if i == 1 {
                reveal_strlit("NFT_Hand_6");
                assert(spec_entry_clean("NFT_Hand_6"@)) by {
                    assert forall|q: int| 0 <= q < "NFT_Hand_6"@.len() implies !is_stripped_char(
                        #[trigger] "NFT_Hand_6"@[q],
                    ) && "NFT_Hand_6"@[q] != ',' by {}
                }
            }
        },
        Rarity::Epic => {
            if i == 0 {
                reveal_strlit("NFT_Hand_7");
                assert(spec_entry_clean("NFT_Hand_7"@)) by {
                    assert forall|q: int| 0 <= q < "NFT_Hand_7"@.len() implies !is_stripped_char(
                        #[trigger] "NFT_Hand_7"@[q],
                    ) && "NFT_Hand_7"@[q] != ',' by {}
                }
            } else if i == 1 {
                reveal_strlit("NFT_Hand_8");
                assert(spec_entry_clean("NFT_Hand_8"@)) by {
                    assert forall|q: int| 0 <= q < "NFT_Hand_8"@.len() implies !is_stripped_char(
                        #[trigger] "NFT_Hand_8"@[q],
                    ) && "NFT_Hand_8"@[q] != ',' by {}
                }
            }
        },
        Rarity::Legendary => {
            if i == 0 {
                reveal_strlit("NFT_Hand_9");
                assert(spec_entry_clean("NFT_Hand_9"@)) by {
                    assert forall|q: int| 0 <= q < "NFT_Hand_9"@.len() implies !is_stripped_char(
                        #[trigger] "NFT_Hand_9"@[q],
                    ) && "NFT_Hand_9"@[q] != ',' by {}
                }
            } else if i == 1 {
                reveal_strlit("NFT_Hand_10");
                assert(spec_entry_clean("NFT_Hand_10"@)) by {
                    assert forall|q: int| 0 <= q < "NFT_Hand_10"@.len() implies !is_stripped_char(
                        #[trigger] "NFT_Hand_10"@[q],
                    ) && "NFT_Hand_10"@[q] != ',' by {}
                }
            } else if i == 2 {
                reveal_strlit("NFT_Hand_11");
                assert(spec_entry_clean("NFT_Hand_11"@)) by {
                    assert forall|q: int| 0 <= q < "NFT_Hand_11"@.len() implies !is_stripped_char(
                        #[trigger] "NFT_Hand_11"@[q],
                    ) && "NFT_Hand_11"@[q] != ',' by {}
                }
            }
        },
        Rarity::Mythical => {
            if i == 0 {
                reveal_strlit("NFT_Hand_12");
                assert(spec_entry_clean("NFT_Hand_12"@)) by {
                    assert forall|q: int| 0 <= q < "NFT_Hand_12"@.len() implies !is_stripped_char(
                        #[trigger] "NFT_Hand_12"@[q],
                    ) && "NFT_Hand_12"@[q] != ',' by {}
                }
            } else if i == 1 {
                reveal_strlit("NFT_Hand_13");
                assert(spec_entry_clean("NFT_Hand_13"@)) by {
                    assert forall|q: int| 0 <= q < "NFT_Hand_13"@.len() implies !is_stripped_char(
                        #[trigger] "NFT_Hand_13"@[q],
                    ) && "NFT_Hand_13"@[q] != ',' by {}
                }
            }
        },
    }
}

proof fn lemma_hair_long_clean(g: Gender, r: Rarity, i: int)
    requires
        0 <= i < spec_hair_long(g, r).len(),
    ensures
        spec_entry_clean(spec_hair_long(g, r)[i]),
{
    match g {
        Gender::Boy => match r {
            Rarity::Common => {
                if i == 0 {
                    reveal_strlit("NFT_B_Hair_Long_11");
                    assert(spec_entry_clean("NFT_B_Hair_Long_11"@)) by {
                        assert forall|q: int| 0 <= q < "NFT_B_Hair_Long_11"@.len() implies !is_stripped_char(
                            #[trigger] "NFT_B_Hair_Long_11"@[q],
                        ) && "NFT_B_Hair_Long_11"@[q] != ',' by {}
                    }
                } else if i == 1 {
                    reveal_strlit("NFT_B_Hair_Long_12");
                    assert(spec_entry_clean("NFT_B_Hair_Long_12"@)) by {
                        assert forall|q: int| 0 <= q < "NFT_B_Hair_Long_12"@.len() implies !is_stripped_char(
                            #[trigger] "NFT_B_Hair_Long_12"@[q],
                        ) && "NFT_B_Hair_Long_12"@[q] != ',' by {}
                    }
                } else if i == 2 {
                    reveal_strlit("NFT_B_Hair_Long_13");
                    assert(spec_entry_clean("NFT_B_Hair_Long_13"@)) by {
                        assert forall|q: int| 0 <= q < "NFT_B_Hair_Long_13"@.len() implies !is_stripped_char(
                            #[trigger] "NFT_B_Hair_Long_13"@[q],
                        ) && "NFT_B_Hair_Long_13"@[q] != ',' by {}
                    }
                } else if i == 3 {
                    reveal_strlit("NFT_B_Hair_Long_14");
                    assert(spec_entry_clean("NFT_B_Hair_Long_14"@)) by {
                        assert forall|q: int| 0 <= q < "NFT_B_Hair_Long_14"@.len() implies !is_stripped_char(
                            #[trigger] "NFT_B_Hair_Long_14"@[q],
                        ) && "NFT_B_Hair_Long_14"@[q] != ',' by {}
                    }
                } else if i == 4 {
                    reveal_strlit("NFT_B_Hair_Long_15");
                    assert(spec_entry_clean("NFT_B_Hair_Long_15"@)) by {
                        assert forall|q: int| 0 <= q < "NFT_B_Hair_Long_15"@.len() implies !is_stripped_char(
                            #[trigger] "NFT_B_Hair_Long_15"@[q],
                        ) && "NFT_B_Hair_Long_15"@[q] != ',' by {}
                    }
                } else if i == 5 {
                    reveal_strlit("NFT_B_Hair_Long_16");
                    assert(spec_entry_clean("NFT_B_Hair_Long_16"@)) by {
                        assert forall|q: int| 0 <= q < "NFT_B_Hair_Long_16"@.len() implies !is_stripped_char(
                            #[trigger] "NFT_B_Hair_Long_16"@[q],
                        ) && "NFT_B_Hair_Long_16"@[q] != ',' by {}
                    }
                } else if i == 6 {
                    reveal_strlit("NFT_B_Hair_Long_17");
                    assert(spec_entry_clean("NFT_B_Hair_Long_17"@)) by {
                        assert forall|q: int| 0 <= q < "NFT_B_Hair_Long_17"@.len() implies !is_stripped_char(
                            #[trigger] "NFT_B_Hair_Long_17"@[q],
                        ) && "NFT_B_Hair_Long_17"@[q] != ',' by {}
                    }
                } else if i == 7 {
                    reveal_strlit("NFT_B_Hair_Long_18");
                    assert(spec_entry_clean("NFT_B_Hair_Long_18"@)) by {
                        assert forall|q: int| 0 <= q < "NFT_B_Hair_Long_18"@.len() implies !is_stripped_char(
                            #[trigger] "NFT_B_Hair_Long_18"@[q],
                        ) && "NFT_B_Hair_Long_18"@[q] != ',' by {}
                    }
                } else if i == 8 {
                    reveal_strlit("NFT_B_Hair_Long_19");
                    assert(spec_entry_clean("NFT_B_Hair_Long_19"@)) by {
                        assert forall|q: int| 0 <= q < "NFT_B_Hair_Long_19"@.len() implies !is_stripped_char(
                            #[trigger] "NFT_B_Hair_Long_19"@[q],
                        ) && "NFT_B_Hair_Long_19"@[q] != ',' by {}
                    }
                } else if i == 9 {
                    reveal_strlit("NFT_B_Hair_Long_20");
                    assert(spec_entry_clean("NFT_B_Hair_Long_20"@)) by {
                        assert forall|q: int| 0 <= q < "NFT_B_Hair_Long_20"@.len() implies !is_stripped_char(
                            #[trigger] "NFT_B_Hair_Long_20"@[q],
                        ) && "NFT_B_Hair_Long_20"@[q] != ',' by {}
                    }
                } else if i == 10 {
                    reveal_strlit("NFT_B_Hair_Long_21");
                    assert(spec_entry_clean("NFT_B_Hair_Long_21"@)) by {
                        assert forall|q: int| 0 <= q < "NFT_B_Hair_Long_21"@.len() implies !is_stripped_char(
                            #[trigger] "NFT_B_Hair_Long_21"@[q],
                        ) && "NFT_B_Hair_Long_21"@[q] != ',' by {}
                    }
                } else if i == 11 {
                    reveal_strlit("NFT_B_Hair_Long_22");
                    assert(spec_entry_clean("NFT_B_Hair_Long_22"@)) by {
                        assert forall|q: int| 0 <= q < "NFT_B_Hair_Long_22"@.len() implies !is_stripped_char(
                            #[trigger] "NFT_B_Hair_Long_22"@[q],
                        ) && "NFT_B_Hair_Long_22"@[q] != ',' by {}
                    }
                } else if i == 12 {
                    reveal_strlit("NFT_B_Hair_Long_23");
                    assert(spec_entry_clean("NFT_B_Hair_Long_23"@)) by {
                        assert forall|q: int| 0 <= q < "NFT_B_Hair_Long_23"@.len() implies !is_stripped_char(
                            #[trigger] "NFT_B_Hair_Long_23"@[q],
                        ) && "NFT_B_Hair_Long_23"@[q] != ',' by {}
                    }
                } else if i == 13 {
                    reveal_strlit("NFT_B_Hair_Long_24");
                    assert(spec_entry_clean("NFT_B_Hair_Long_24"@)) by {
                        assert forall|q: int| 0 <= q < "NFT_B_Hair_Long_24"@.len() implies !is_stripped_char(
                            #[trigger] "NFT_B_Hair_Long_24"@[q],
                        ) && "NFT_B_Hair_Long_24"@[q] != ',' by {}
                    }
                } else if i == 14 {
                    reveal_strlit("NFT_B_Hair_Long_25");
                    assert(spec_entry_clean("NFT_B_Hair_Long_25"@)) by {
                        assert forall|q: int| 0 <= q < "NFT_B_Hair_Long_25"@.len() implies !is_stripped_char(
                            #[trigger] "NFT_B_Hair_Long_25"@[q],
                        ) && "NFT_B_Hair_Long_25"@[q] != ',' by {}
                    }
                } else if i == 15 {
                    reveal_strlit("NFT_B_Hair_Long_26");
                    assert(spec_entry_clean("NFT_B_Hair_Long_26"@)) by {
                        assert forall|q: int| 0 <= q < "NFT_B_Hair_Long_26"@.len() implies !is_stripped_char(
                            #[trigger] "NFT_B_Hair_Long_26"@[q],
                        ) && "NFT_B_Hair_Long_26"@[q] != ',' by {}
                    }
                } else if i == 16 {
                    reveal_strlit("NFT_B_Hair_Long_27");
                    assert(spec_entry_clean("NFT_B_Hair_Long_27"@)) by {
                        assert forall|q: int| 0 <= q < "NFT_B_Hair_Long_27"@.len() implies !is_stripped_char(
                            #[trigger] "NFT_B_Hair_Long_27"@[q],
                        ) && "NFT_B_Hair_Long_27"@[q] != ',' by {}
                    }
                } else if i == 17 {
                    reveal_strlit("NFT_B_Hair_Long_28");
                    assert(spec_entry_clean("NFT_B_Hair_Long_28"@)) by {
                        assert forall|q: int| 0 <= q < "NFT_B_Hair_Long_28"@.len() implies !is_stripped_char(
                            #[trigger] "NFT_B_Hair_Long_28"@[q],
                        ) && "NFT_B_Hair_Long_28"@[q] != ',' by {}
                    }
                } else if i == 18 {
                    reveal_strlit("NFT_B_Hair_Long_29");
                    assert(spec_entry_clean("NFT_B_Hair_Long_29"@)) by {
                        assert forall|q: int| 0 <= q < "NFT_B_Hair_Long_29"@.len() implies !is_stripped_char(
                            #[trigger] "NFT_B_Hair_Long_29"@[q],
                        ) && "NFT_B_Hair_Long_29"@[q] != ',' by {}
                    }
                } else if i == 19 {
                    reveal_strlit("NFT_B_Hair_Long_30");
                    assert(spec_entry_clean("NFT_B_Hair_Long_30"@)) by {
                        assert forall|q: int| 0 <= q < "NFT_B_Hair_Long_30"@.len() implies !is_stripped_char(
                            #[trigger] "NFT_B_Hair_Long_30"@[q],
                        ) && "NFT_B_Hair_Long_30"@[q] != ',' by {}
                    }
                } else if i == 20 {
                    reveal_strlit("NFT_B_Hair_Long_31");
                    assert(spec_entry_clean("NFT_B_Hair_Long_31"@)) by {
                        assert forall|q: int| 0 <= q < "NFT_B_Hair_Long_31"@.len() implies !is_stripped_char(
                            #[trigger] "NFT_B_Hair_Long_31"@[q],
                        ) && "NFT_B_Hair_Long_31"@[q] != ',' by {}
                    }
                }
            },
            Rarity::Uncommon => {
                if i == 0 {
                    reveal_strlit("NFT_B_Hair_Long_2");
                    assert(spec_entry_clean("NFT_B_Hair_Long_2"@)) by {
                        assert forall|q: int| 0 <= q < "NFT_B_Hair_Long_2"@.len() implies !is_stripped_char(
                            #[trigger] "NFT_B_Hair_Long_2"@[q],
                        ) && "NFT_B_Hair_Long_2"@[q] != ',' by {}
                    }
                } else if i == 1 {
                    reveal_strlit("NFT_B_Hair_Long_3");
                    assert(spec_entry_clean("NFT_B_Hair_Long_3"@)) by {
                        assert forall|q: int| 0 <= q < "NFT_B_Hair_Long_3"@.len() implies !is_stripped_char(
                            #[trigger] "NFT_B_Hair_Long_3"@[q],
                        ) && "NFT_B_Hair_Long_3"@[q] != ',' by {}
                    }
                } else if i == 2 {
                    reveal_strlit("NFT_B_Hair_Long_4");
                    assert(spec_entry_clean("NFT_B_Hair_Long_4"@)) by {
                        assert forall|q: int| 0 <= q < "NFT_B_Hair_Long_4"@.len() implies !is_stripped_char(
                            #[trigger] "NFT_B_Hair_Long_4"@[q],
                        ) && "NFT_B_Hair_Long_4"@[q] != ',' by {}
                    }
                } else if i == 3 {
                    reveal_strlit("NFT_B_Hair_Long_7");
                    assert(spec_entry_clean("NFT_B_Hair_Long_7"@)) by {
                        assert forall|q: int| 0 <= q < "NFT_B_Hair_Long_7"@.len() implies !is_stripped_char(
                            #[trigger] "NFT_B_Hair_Long_7"@[q],
                        ) && "NFT_B_Hair_Long_7"@[q] != ',' by {}
                    }
                } else if i == 4 {
                    reveal_strlit("NFT_B_Hair_Long_8");
                    assert(spec_entry_clean("NFT_B_Hair_Long_8"@)) by {
                        assert forall|q: int| 0 <= q < "NFT_B_Hair_Long_8"@.len() implies !is_stripped_char(
                            #[trigger] "NFT_B_Hair_Long_8"@[q],
                        ) && "NFT_B_Hair_Long_8"@[q] != ',' by {}
                    }
                } else if i == 5 {
                    reveal_strlit("NFT_B_Hair_Long_9");
                    assert(spec_entry_clean("NFT_B_Hair_Long_9"@)) by {
                        assert forall|q: int| 0 <= q < "NFT_B_Hair_Long_9"@.len() implies !is_stripped_char(
                            #[trigger] "NFT_B_Hair_Long_9"@[q],
                        ) && "NFT_B_Hair_Long_9"@[q] != ',' by {}
                    }
                } else if i == 6 {
                    reveal_strlit("NFT_B_Hair_Long_10");
                    assert(spec_entry_clean("NFT_B_Hair_Long_10"@)) by {
                        assert forall|q: int| 0 <= q < "NFT_B_Hair_Long_10"@.len() implies !is_stripped_char(
                            #[trigger] "NFT_B_Hair_Long_10"@[q],
                        ) && "NFT_B_Hair_Long_10"@[q] != ',' by {}
                    }
                }
            },
            Rarity::Rare => {
                if i == 0 {
                    reveal_strlit("NFT_B_Hair_Long_32");
                    assert(spec_entry_clean("NFT_B_Hair_Long_32"@)) by {
                        assert forall|q: int| 0 <= q < "NFT_B_Hair_Long_32"@.len() implies !is_stripped_char(
                            #[trigger] "NFT_B_Hair_Long_32"@[q],
                        ) && "NFT_B_Hair_Long_32"@[q] != ',' by {}
                    }
                } else if i == 1 {
                    reveal_strlit("NFT_B_Hair_Long_33");
                    assert(spec_entry_clean("NFT_B_Hair_Long_33"@)) by {
                        assert forall|q: int| 0 <= q < "NFT_B_Hair_Long_33"@.len() implies !is_stripped_char(
                            #[trigger] "NFT_B_Hair_Long_33"@[q],
                        ) && "NFT_B_Hair_Long_33"@[q] != ',' by {}
                    }
                } else if i == 2 {
                    reveal_strlit("NFT_B_Hair_Long_34");
                    assert(spec_entry_clean("NFT_B_Hair_Long_34"@)) by {
                        assert forall|q: int| 0 <= q < "NFT_B_Hair_Long_34"@.len() implies !is_stripped_char(
                            #[trigger] "NFT_B_Hair_Long_34"@[q],
                        ) && "NFT_B_Hair_Long_34"@[q] != ',' by {}
                    }
                } else if i == 3 {
                    reveal_strlit("NFT_B_Hair_Long_35");
                    assert(spec_entry_clean("NFT_B_Hair_Long_35"@)) by {
                        assert forall|q: int| 0 <= q < "NFT_B_Hair_Long_35"@.len() implies !is_stripped_char(
                            #[trigger] "NFT_B_Hair_Long_35"@[q],
                        ) && "NFT_B_Hair_Long_35"@[q] != ',' by {}
                    }
                } else if i == 4 {
                    reveal_strlit("NFT_B_Hair_Long_36");
                    assert(spec_entry_clean("NFT_B_Hair_Long_36"@)) by {
                        assert forall|q: int| 0 <= q < "NFT_B_Hair_Long_36"@.len() implies !is_stripped_char(
                            #[trigger] "NFT_B_Hair_Long_36"@[q],
                        ) && "NFT_B_Hair_Long_36"@[q] != ',' by {}
                    }
                } else if i == 5 {
                    reveal_strlit("NFT_B_Hair_Long_37");
                    assert(spec_entry_clean("NFT_B_Hair_Long_37"@)) by {
                        assert forall|q: int| 0 <= q < "NFT_B_Hair_Long_37"@.len() implies !is_stripped_char(
                            #[trigger] "NFT_B_Hair_Long_37"@[q],
                        ) && "NFT_B_Hair_Long_37"@[q] != ',' by {}
                    }
                } else if i == 6 {
                    reveal_strlit("NFT_B_Hair_Long_38");
                    assert(spec_entry_clean("NFT_B_Hair_Long_38"@)) by {
                        assert forall|q: int| 0 <= q < "NFT_B_Hair_Long_38"@.len() implies !is_stripped_char(
                            #[trigger] "NFT_B_Hair_Long_38"@[q],
                        ) && "NFT_B_Hair_Long_38"@[q] != ',' by {}
                    }
                }
            },
            Rarity::Epic => {
                if i == 0 {
                    reveal_strlit("NFT_B_Hair_Long_1");
                    assert(spec_entry_clean("NFT_B_Hair_Long_1"@)) by {
                        assert forall|q: int| 0 <= q < "NFT_B_Hair_Long_1"@.len() implies !is_stripped_char(
                            #[trigger] "NFT_B_Hair_Long_1"@[q],
                        ) && "NFT_B_Hair_Long_1"@[q] != ',' by {}
                    }
                } else if i == 1 {
                    reveal_strlit("NFT_B_Hair_Long_5");
                    assert(spec_entry_clean("NFT_B_Hair_Long_5"@)) by {
                        assert forall|q: int| 0 <= q < "NFT_B_Hair_Long_5"@.len() implies !is_stripped_char(
                            #[trigger] "NFT_B_Hair_Long_5"@[q],
                        ) && "NFT_B_Hair_Long_5"@[q] != ',' by {}
                    }
                } else if i == 2 {
                    reveal_strlit("NFT_B_Hair_Long_6");
                    assert(spec_entry_clean("NFT_B_Hair_Long_6"@)) by {
                        assert forall|q: int| 0 <= q < "NFT_B_Hair_Long_6"@.len() implies !is_stripped_char(
                            #[trigger] "NFT_B_Hair_Long_6"@[q],
                        ) && "NFT_B_Hair_Long_6"@[q] != ',' by {}
                    }
                }
            },
            Rarity::Legendary => {
                if i == 0 {
                    reveal_strlit("NFT_B_Hair_Long_39");
                    assert(spec_entry_clean("NFT_B_Hair_Long_39"@)) by {
                        assert forall|q: int| 0 <= q < "NFT_B_Hair_Long_39"@.len() implies !is_stripped_char(
                            #[trigger] "NFT_B_Hair_Long_39"@[q],
                        ) && "NFT_B_Hair_Long_39"@[q] != ',' by {}
                    }
                } else if i == 1 {
                    reveal_strlit("NFT_B_Hair_Long_41");
                    assert(spec_entry_clean("NFT_B_Hair_Long_41"@)) by {
                        assert forall|q: int| 0 <= q < "NFT_B_Hair_Long_41"@.len() implies !is_stripped_char(
                            #[trigger] "NFT_B_Hair_Long_41"@[q],
                        ) && "NFT_B_Hair_Long_41"@[q] != ',' by {}
                    }
                }
            },
            Rarity::Mythical => {
                if i == 0 {
                    reveal_strlit("NFT_B_Hair_Long_40");
                    assert(spec_entry_clean("NFT_B_Hair_Long_40"@)) by {
                        assert forall|q: int| 0 <= q < "NFT_B_Hair_Long_40"@.len() implies !is_stripped_char(
                            #[trigger] "NFT_B_Hair_Long_40"@[q],
                        ) && "NFT_B_Hair_Long_40"@[q] != ',' by {}
                    }
                } else if i == 1 {
                    reveal_strlit("NFT_B_Hair_Long_42");
                    assert(spec_entry_clean("NFT_B_Hair_Long_42"@)) by {
                        assert forall|q: int| 0 <= q < "NFT_B_Hair_Long_42"@.len() implies !is_stripped_char(
                            #[trigger] "NFT_B_Hair_Long_42"@[q],
                        ) && "NFT_B_Hair_Long_42"@[q] != ',' by {}
                    }
                }
            },
        },
        Gender::Girl => match r {
            Rarity::Common => {
                if i == 0 {
                    reveal_strlit("NFT_G_Hair_Long_17");
                    assert(spec_entry_clean("NFT_G_Hair_Long_17"@)) by {
                        assert forall|q: int| 0 <= q < "NFT_G_Hair_Long_17"@.len() implies !is_stripped_char(
                            #[trigger] "NFT_G_Hair_Long_17"@[q],
                        ) && "NFT_G_Hair_Long_17"@[q] != ',' by {}
                    }
                } else if i == 1 {
                    reveal_strlit("NFT_G_Hair_Long_18");
                    assert(spec_entry_clean("NFT_G_Hair_Long_18"@)) by {
                        assert forall|q: int| 0 <= q < "NFT_G_Hair_Long_18"@.len() implies !is_stripped_char(
                            #[trigger] "NFT_G_Hair_Long_18"@[q],
                        ) && "NFT_G_Hair_Long_18"@[q] != ',' by {}
                    }
                } else if i == 2 {
                    reveal_strlit("NFT_G_Hair_Long_19");
                    assert(spec_entry_clean("NFT_G_Hair_Long_19"@)) by {
                        assert forall|q: int| 0 <= q < "NFT_G_Hair_Long_19"@.len() implies !is_stripped_char(
                            #[trigger] "NFT_G_Hair_Long_19"@[q],
                        ) && "NFT_G_Hair_Long_19"@[q] != ',' by {}
                    }
                } else if i == 3 {
                    reveal_strlit("NFT_G_Hair_Long_20");
                    assert(spec_entry_clean("NFT_G_Hair_Long_20"@)) by {
                        assert forall|q: int| 0 <= q < "NFT_G_Hair_Long_20"@.len() implies !is_stripped_char(
                            #[trigger] "NFT_G_Hair_Long_20"@[q],
                        ) && "NFT_G_Hair_Long_20"@[q] != ',' by {}
                    }
                } else if i == 4 {
                    reveal_strlit("NFT_G_Hair_Long_21");
                    assert(spec_entry_clean("NFT_G_Hair_Long_21"@)) by {
                        assert forall|q: int| 0 <= q < "NFT_G_Hair_Long_21"@.len() implies !is_stripped_char(
                            #[trigger] "NFT_G_Hair_Long_21"@[q],
                        ) && "NFT_G_Hair_Long_21"@[q] != ',' by {}
                    }
                } else if i == 5 {
                    reveal_strlit("NFT_G_Hair_Long_22");
                    assert(spec_entry_clean("NFT_G_Hair_Long_22"@)) by {
                        assert forall|q: int| 0 <= q < "NFT_G_Hair_Long_22"@.len() implies !is_stripped_char(
                            #[trigger] "NFT_G_Hair_Long_22"@[q],
                        ) && "NFT_G_Hair_Long_22"@[q] != ',' by {}
                    }
                } else if i == 6 {
                    reveal_strlit("NFT_G_Hair_Long_23");
                    assert(spec_entry_clean("NFT_G_Hair_Long_23"@)) by {
                        assert forall|q: int| 0 <= q < "NFT_G_Hair_Long_23"@.len() implies !is_stripped_char(
                            #[trigger] "NFT_G_Hair_Long_23"@[q],
                        ) && "NFT_G_Hair_Long_23"@[q] != ',' by {}
                    }
                } else if i == 7 {
                    reveal_strlit("NFT_G_Hair_Long_24");
                    assert(spec_entry_clean("NFT_G_Hair_Long_24"@)) by {
                        assert forall|q: int| 0 <= q < "NFT_G_Hair_Long_24"@.len() implies !is_stripped_char(
                            #[trigger] "NFT_G_Hair_Long_24"@[q],
                        ) && "NFT_G_Hair_Long_24"@[q] != ',' by {}
                    }
                } else if i == 8 {
                    reveal_strlit("NFT_G_Hair_Long_25");
                    assert(spec_entry_clean("NFT_G_Hair_Long_25"@)) by {
                        assert forall|q: int| 0 <= q < "NFT_G_Hair_Long_25"@.len() implies !is_stripped_char(
                            #[trigger] "NFT_G_Hair_Long_25"@[q],
                        ) && "NFT_G_Hair_Long_25"@[q] != ',' by {}
                    }
                } else if i == 9 {
                    reveal_strlit("NFT_G_Hair_Long_26");
                    assert(spec_entry_clean("NFT_G_Hair_Long_26"@)) by {
                        assert forall|q: int| 0 <= q < "NFT_G_Hair_Long_26"@.len() implies !is_stripped_char(
                            #[trigger] "NFT_G_Hair_Long_26"@[q],
                        ) && "NFT_G_Hair_Long_26"@[q] != ',' by {}
                    }
                } else if i == 10 {
                    reveal_strlit("NFT_G_Hair_Long_27");
                    assert(spec_entry_clean("NFT_G_Hair_Long_27"@)) by {
                        assert forall|q: int| 0 <= q < "NFT_G_Hair_Long_27"@.len() implies !is_stripped_char(
                            #[trigger] "NFT_G_Hair_Long_27"@[q],
                        ) && "NFT_G_Hair_Long_27"@[q] != ',' by {}
                    }
                } else if i == 11 {
                    reveal_strlit("NFT_G_Hair_Long_28");
                    assert(spec_entry_clean("NFT_G_Hair_Long_28"@)) by {
                        assert forall|q: int| 0 <= q < "NFT_G_Hair_Long_28"@.len() implies !is_stripped_char(
                            #[trigger] "NFT_G_Hair_Long_28"@[q],
                        ) && "NFT_G_Hair_Long_28"@[q] != ',' by {}
                    }
                } else if i == 12 {
                    reveal_strlit("NFT_G_Hair_Long_29");
                    assert(spec_entry_clean("NFT_G_Hair_Long_29"@)) by {
                        assert forall|q: int| 0 <= q < "NFT_G_Hair_Long_29"@.len() implies !is_stripped_char(
                            #[trigger] "NFT_G_Hair_Long_29"@[q],
                        ) && "NFT_G_Hair_Long_29"@[q] != ',' by {}
                    }
                } else if i == 13 {
                    reveal_strlit("NFT_G_Hair_Long_30");
                    assert(spec_entry_clean("NFT_G_Hair_Long_30"@)) by {
                        assert forall|q: int| 0 <= q < "NFT_G_Hair_Long_30"@.len() implies !is_stripped_char(
                            #[trigger] "NFT_G_Hair_Long_30"@[q],
                        ) && "NFT_G_Hair_Long_30"@[q] != ',' by {}
                    }
                } else if i == 14 {
                    reveal_strlit("NFT_G_Hair_Long_31");
                    assert(spec_entry_clean("NFT_G_Hair_Long_31"@)) by {
                        assert forall|q: int| 0 <= q < "NFT_G_Hair_Long_31"@.len() implies !is_stripped_char(
                            #[trigger] "NFT_G_Hair_Long_31"@[q],
                        ) && "NFT_G_Hair_Long_31"@[q] != ',' by {}
                    }
                }
            },
            Rarity::Uncommon => {
                if i == 0 {
                    reveal_strlit("NFT_G_Hair_Long_4");
                    assert(spec_entry_clean("NFT_G_Hair_Long_4"@)) by {
                        assert forall|q: int| 0 <= q < "NFT_G_Hair_Long_4"@.len() implies !is_stripped_char(
                            #[trigger] "NFT_G_Hair_Long_4"@[q],
                        ) && "NFT_G_Hair_Long_4"@[q] != ',' by {}
                    }
                } else if i == 1 {
                    reveal_strlit("NFT_G_Hair_Long_5");
                    assert(spec_entry_clean("NFT_G_Hair_Long_5"@)) by {
                        assert forall|q: int| 0 <= q < "NFT_G_Hair_Long_5"@.len() implies !is_stripped_char(
                            #[trigger] "NFT_G_Hair_Long_5"@[q],
                        ) && "NFT_G_Hair_Long_5"@[q] != ',' by {}
                    }
                } else if i == 2 {
                    reveal_strlit("NFT_G_Hair_Long_6");
                    assert(spec_entry_clean("NFT_G_Hair_Long_6"@)) by {
                        assert forall|q: int| 0 <= q < "NFT_G_Hair_Long_6"@.len() implies !is_stripped_char(
                            #[trigger] "NFT_G_Hair_Long_6"@[q],
                        ) && "NFT_G_Hair_Long_6"@[q] != ',' by {}
                    }
                } else if i == 3 {
                    reveal_strlit("NFT_G_Hair_Long_7");
                    assert(spec_entry_clean("NFT_G_Hair_Long_7"@)) by {
                        assert forall|q: int| 0 <= q < "NFT_G_Hair_Long_7"@.len() implies !is_stripped_char(
                            #[trigger] "NFT_G_Hair_Long_7"@[q],
                        ) && "NFT_G_Hair_Long_7"@[q] != ',' by {}
                    }
                } else if i == 4 {
                    reveal_strlit("NFT_G_Hair_Long_8");
                    assert(spec_entry_clean("NFT_G_Hair_Long_8"@)) by {
                        assert forall|q: int| 0 <= q < "NFT_G_Hair_Long_8"@.len() implies !is_stripped_char(
                            #[trigger] "NFT_G_Hair_Long_8"@[q],
                        ) && "NFT_G_Hair_Long_8"@[q] != ',' by {}
                    }
                } else if i == 5 {
                    reveal_strlit("NFT_G_Hair_Long_9");
                    assert(spec_entry_clean("NFT_G_Hair_Long_9"@)) by {
                        assert forall|q: int| 0 <= q < "NFT_G_Hair_Long_9"@.len() implies !is_stripped_char(
                            #[trigger] "NFT_G_Hair_Long_9"@[q],
                        ) && "NFT_G_Hair_Long_9"@[q] != ',' by {}
                    }
                } else if i == 6 {
                    reveal_strlit("NFT_G_Hair_Long_10");
                    assert(spec_entry_clean("NFT_G_Hair_Long_10"@)) by {
                        assert forall|q: int| 0 <= q < "NFT_G_Hair_Long_10"@.len() implies !is_stripped_char(
                            #[trigger] "NFT_G_Hair_Long_10"@[q],
                        ) && "NFT_G_Hair_Long_10"@[q] != ',' by {}
                    }
                } else if i == 7 {
                    reveal_strlit("NFT_G_Hair_Long_13");
                    assert(spec_entry_clean("NFT_G_Hair_Long_13"@)) by {
                        assert forall|q: int| 0 <= q < "NFT_G_Hair_Long_13"@.len() implies !is_stripped_char(
                            #[trigger] "NFT_G_Hair_Long_13"@[q],
                        ) && "NFT_G_Hair_Long_13"@[q] != ',' by {}
                    }
                } else if i == 8 {
                    reveal_strlit("NFT_G_Hair_Long_14");
                    assert(spec_entry_clean("NFT_G_Hair_Long_14"@)) by {
                        assert forall|q: int| 0 <= q < "NFT_G_Hair_Long_14"@.len() implies !is_stripped_char(
                            #[trigger] "NFT_G_Hair_Long_14"@[q],
                        ) && "NFT_G_Hair_Long_14"@[q] != ',' by {}
                    }
                } else if i == 9 {
                    reveal_strlit("NFT_G_Hair_Long_15");
                    assert(spec_entry_clean("NFT_G_Hair_Long_15"@)) by {
                        assert forall|q: int| 0 <= q < "NFT_G_Hair_Long_15"@.len() implies !is_stripped_char(
                            #[trigger] "NFT_G_Hair_Long_15"@[q],
                        ) && "NFT_G_Hair_Long_15"@[q] != ',' by {}
                    }
                } else if i == 10 {
                    reveal_strlit("NFT_G_Hair_Long_16");
                    assert(spec_entry_clean("NFT_G_Hair_Long_16"@)) by {
                        assert forall|q: int| 0 <= q < "NFT_G_Hair_Long_16"@.len() implies !is_stripped_char(
                            #[trigger] "NFT_G_Hair_Long_16"@[q],
                        ) && "NFT_G_Hair_Long_16"@[q] != ',' by {}
                    }
                } else if i == 11 {
                    reveal_strlit("NFT_G_Hair_Long_32");
                    assert(spec_entry_clean("NFT_G_Hair_Long_32"@)) by {
                        assert forall|q: int| 0 <= q < "NFT_G_Hair_Long_32"@.len() implies !is_stripped_char(
                            #[trigger] "NFT_G_Hair_Long_32"@[q],
                        ) && "NFT_G_Hair_Long_32"@[q] != ',' by {}
                    }
                } else if i == 12 {
                    reveal_strlit("NFT_G_Hair_Long_33");
                    assert(spec_entry_clean("NFT_G_Hair_Long_33"@)) by {
                        assert forall|q: int| 0 <= q < "NFT_G_Hair_Long_33"@.len() implies !is_stripped_char(
                            #[trigger] "NFT_G_Hair_Long_33"@[q],
                        ) && "NFT_G_Hair_Long_33"@[q] != ',' by {}
                    }
                } else if i == 13 {
                    reveal_strlit("NFT_G_Hair_Long_37");
                    assert(spec_entry_clean("NFT_G_Hair_Long_37"@)) by {
                        assert forall|q: int| 0 <= q < "NFT_G_Hair_Long_37"@.len() implies !is_stripped_char(
                            #[trigger] "NFT_G_Hair_Long_37"@[q],
                        ) && "NFT_G_Hair_Long_37"@[q] != ',' by {}
                    }
                } else if i == 14 {
                    reveal_strlit("NFT_G_Hair_Long_38");
                    assert(spec_entry_clean("NFT_G_Hair_Long_38"@)) by {
                        assert forall|q: int| 0 <= q < "NFT_G_Hair_Long_38"@.len() implies !is_stripped_char(
                            #[trigger] "NFT_G_Hair_Long_38"@[q],
                        ) && "NFT_G_Hair_Long_38"@[q] != ',' by {}
                    }
                } else if i == 15 {
                    reveal_strlit("NFT_G_Hair_Long_39");
                    assert(spec_entry_clean("NFT_G_Hair_Long_39"@)) by {
                        assert forall|q: int| 0 <= q < "NFT_G_Hair_Long_39"@.len() implies !is_stripped_char(
                            #[trigger] "NFT_G_Hair_Long_39"@[q],
                        ) && "NFT_G_Hair_Long_39"@[q] != ',' by {}
                    }
                } else if i == 16 {
                    reveal_strlit("NFT_G_Hair_Long_40");
                    assert(spec_entry_clean("NFT_G_Hair_Long_40"@)) by {
                        assert forall|q: int| 0 <= q < "NFT_G_Hair_Long_40"@.len() implies !is_stripped_char(
                            #[trigger] "NFT_G_Hair_Long_40"@[q],
                        ) && "NFT_G_Hair_Long_40"@[q] != ',' by {}
                    }
                } else if i == 17 {
                    reveal_strlit("NFT_G_Hair_Long_41");
                    assert(spec_entry_clean("NFT_G_Hair_Long_41"@)) by {
                        assert forall|q: int| 0 <= q < "NFT_G_Hair_Long_41"@.len() implies !is_stripped_char(
                            #[trigger] "NFT_G_Hair_Long_41"@[q],
                        ) && "NFT_G_Hair_Long_41"@[q] != ',' by {}
                    }
                } else if i == 18 {
                    reveal_strlit("NFT_G_Hair_Long_42");
                    assert(spec_entry_clean("NFT_G_Hair_Long_42"@)) by {
                        assert forall|q: int| 0 <= q < "NFT_G_Hair_Long_42"@.len() implies !is_stripped_char(
                            #[trigger] "NFT_G_Hair_Long_42"@[q],
                        ) && "NFT_G_Hair_Long_42"@[q] != ',' by {}
                    }
                }
            },
            Rarity::Rare => {
                if i == 0 {
                    reveal_strlit("NFT_G_Hair_Long_34");
                    assert(spec_entry_clean("NFT_G_Hair_Long_34"@)) by {
                        assert forall|q: int| 0 <= q < "NFT_G_Hair_Long_34"@.len() implies !is_stripped_char(
                            #[trigger] "NFT_G_Hair_Long_34"@[q],
                        ) && "NFT_G_Hair_Long_34"@[q] != ',' by {}
                    }
                } else if i == 1 {
                    reveal_strlit("NFT_G_Hair_Long_35");
                    assert(spec_entry_clean("NFT_G_Hair_Long_35"@)) by {
                        assert forall|q: int| 0 <= q < "NFT_G_Hair_Long_35"@.len() implies !is_stripped_char(
                            #[trigger] "NFT_G_Hair_Long_35"@[q],
                        ) && "NFT_G_Hair_Long_35"@[q] != ',' by {}
                    }
                } else if i == 2 {
                    reveal_strlit("NFT_G_Hair_Long_36");
                    assert(spec_entry_clean("NFT_G_Hair_Long_36"@)) by {
                        assert forall|q: int| 0 <= q < "NFT_G_Hair_Long_36"@.len() implies !is_stripped_char(
                            #[trigger] "NFT_G_Hair_Long_36"@[q],
                        ) && "NFT_G_Hair_Long_36"@[q] != ',' by {}
                    }
                }
            },
            Rarity::Epic => {
                if i == 0 {
                    reveal_strlit("NFT_G_Hair_Long_1");
                    assert(spec_entry_clean("NFT_G_Hair_Long_1"@)) by {
                        assert forall|q: int| 0 <= q < "NFT_G_Hair_Long_1"@.len() implies !is_stripped_char(
                            #[trigger] "NFT_G_Hair_Long_1"@[q],
                        ) && "NFT_G_Hair_Long_1"@[q] != ',' by {}
                    }
                } else if i == 1 {
                    reveal_strlit("NFT_G_Hair_Long_2");
                    assert(spec_entry_clean("NFT_G_Hair_Long_2"@)) by {
                        assert forall|q: int| 0 <= q < "NFT_G_Hair_Long_2"@.len() implies !is_stripped_char(
                            #[trigger] "NFT_G_Hair_Long_2"@[q],
                        ) && "NFT_G_Hair_Long_2"@[q] != ',' by {}
                    }
                } else if i == 2 {
                    reveal_strlit("NFT_G_Hair_Long_3");
                    assert(spec_entry_clean("NFT_G_Hair_Long_3"@)) by {
                        assert forall|q: int| 0 <= q < "NFT_G_Hair_Long_3"@.len() implies !is_stripped_char(
                            #[trigger] "NFT_G_Hair_Long_3"@[q],
                        ) && "NFT_G_Hair_Long_3"@[q] != ',' by {}
                    }
                } else if i == 3 {
                    reveal_strlit("NFT_G_Hair_Long_11");
                    assert(spec_entry_clean("NFT_G_Hair_Long_11"@)) by {
                        assert forall|q: int| 0 <= q < "NFT_G_Hair_Long_11"@.len() implies !is_stripped_char(
                            #[trigger] "NFT_G_Hair_Long_11"@[q],
                        ) && "NFT_G_Hair_Long_11"@[q] != ',' by {}
                    }
                } else if i == 4 {
                    reveal_strlit("NFT_G_Hair_Long_12");
                    assert(spec_entry_clean("NFT_G_Hair_Long_12"@)) by {
                        assert forall|q: int| 0 <= q < "NFT_G_Hair_Long_12"@.len() implies !is_stripped_char(
                            #[trigger] "NFT_G_Hair_Long_12"@[q],
                        ) && "NFT_G_Hair_Long_12"@[q] != ',' by {}
                    }
                }
            },
            Rarity::Legendary => {
                if i == 0 {
                    reveal_strlit("NFT_G_Hair_Long_43");
                    assert(spec_entry_clean("NFT_G_Hair_Long_43"@)) by {
                        assert forall|q: int| 0 <= q < "NFT_G_Hair_Long_43"@.len() implies !is_stripped_char(
                            #[trigger] "NFT_G_Hair_Long_43"@[q],
                        ) && "NFT_G_Hair_Long_43"@[q] != ',' by {}
                    }
                } else if i == 1 {
                    reveal_strlit("NFT_G_Hair_Long_45");
                    assert(spec_entry_clean("NFT_G_Hair_Long_45"@)) by {
                        assert forall|q: int| 0 <= q < "NFT_G_Hair_Long_45"@.len() implies !is_stripped_char(
                            #[trigger] "NFT_G_Hair_Long_45"@[q],
                        ) && "NFT_G_Hair_Long_45"@[q] != ',' by {}
                    }
                }
            },
            Rarity::Mythical => {
                if i == 0 {
                    reveal_strlit("NFT_G_Hair_Long_44");
                    assert(spec_entry_clean("NFT_G_Hair_Long_44"@)) by {
                        assert forall|q: int| 0 <= q < "NFT_G_Hair_Long_44"@.len() implies !is_stripped_char(
                            #[trigger] "NFT_G_Hair_Long_44"@[q],
                        ) && "NFT_G_Hair_Long_44"@[q] != ',' by {}
                    }
                } else if i == 1 {
                    reveal_strlit("NFT_G_Hair_Long_46");
                    assert(spec_entry_clean("NFT_G_Hair_Long_46"@)) by {
                        assert forall|q: int| 0 <= q < "NFT_G_Hair_Long_46"@.len() implies !is_stripped_char(
                            #[trigger] "NFT_G_Hair_Long_46"@[q],
                        ) && "NFT_G_Hair_Long_46"@[q] != ',' by {}
                    }
                }
            },
        },
    }
}

proof fn lemma_body_clean(r: Rarity, i: int)
    requires
        0 <= i < spec_body(r).len(),
    ensures
        spec_entry_clean(spec_body(r)[i]),
{
    match r {
        Rarity::Common => {
            if i == 0 {
                reveal_strlit("NFT_Body_1");
                assert(spec_entry_clean("NFT_Body_1"@)) by {
                    assert forall|q: int| 0 <= q < "NFT_Body_1"@.len() implies !is_stripped_char(
                        #[trigger] "NFT_Body_1"@[q],
                    ) && "NFT_Body_1"@[q] != ',' by {}
                }
            } else if i == 1 {
                reveal_strlit("NFT_Body_2");
                assert(spec_entry_clean("NFT_Body_2"@)) by {
                    assert forall|q: int| 0 <= q < "NFT_Body_2"@.len() implies !is_stripped_char(
                        #[trigger] "NFT_Body_2"@[q],
                    ) && "NFT_Body_2"@[q] != ',' by {}
                }
            } else if i == 2 {
                reveal_strlit("NFT_Body_3");
                assert(spec_entry_clean("NFT_Body_3"@)) by {
                    assert forall|q: int| 0 <= q < "NFT_Body_3"@.len() implies !is_stripped_char(
                        #[trigger] "NFT_Body_3"@[q],
                    ) && "NFT_Body_3"@[q] != ',' by {}
                }
            }
        },
        Rarity::Uncommon => {
        },
        Rarity::Rare => {
        },
        Rarity::Epic => {
            if i == 0 {
                reveal_strlit("NFT_Body_4");
                assert(spec_entry_clean("NFT_Body_4"@)) by {
                    assert forall|q: int| 0 <= q < "NFT_Body_4"@.len() implies !is_stripped_char(
                        #[trigger] "NFT_Body_4"@[q],
                    ) && "NFT_Body_4"@[q] != ',' by {}
                }
            }
        },
        Rarity::Legendary => {
        },
        Rarity::Mythical => {
        },
    }
}

proof fn lemma_clothes_clean(g: Gender, r: Rarity, i: int)
    requires
        0 <= i < spec_clothes(g, r).len(),
    ensures
        spec_entry_clean(spec_clothes(g, r)[i]),
{
    match g {
        Gender::Boy => match r {
            Rarity::Common => {
                if i == 0 {
                    reveal_strlit("NFT_B_Clothes_1");
                    assert(spec_entry_clean("NFT_B_Clothes_1"@)) by {
                        assert forall|q: int| 0 <= q < "NFT_B_Clothes_1"@.len() implies !is_stripped_char(
                            #[trigger] "NFT_B_Clothes_1"@[q],
                        ) && "NFT_B_Clothes_1"@[q] != ',' by {}
                    }
                } else if i == 1 {
                    reveal_strlit("NFT_B_Clothes_2");
                    assert(spec_entry_clean("NFT_B_Clothes_2"@)) by {
                        assert forall|q: int| 0 <= q < "NFT_B_Clothes_2"@.len() implies !is_stripped_char(
                            #[trigger] "NFT_B_Clothes_2"@[q],
                        ) && "NFT_B_Clothes_2"@[q] != ',' by {}
                    }
                } else if i == 2 {
                    reveal_strlit("NFT_B_Clothes_3");
                    assert(spec_entry_clean("NFT_B_Clothes_3"@)) by {
                        assert forall|q: int| 0 <= q < "NFT_B_Clothes_3"@.len() implies !is_stripped_char(
                            #[trigger] "NFT_B_Clothes_3"@[q],
                        ) && "NFT_B_Clothes_3"@[q] != ',' by {}
                    }
                } else if i == 3 {
                    reveal_strlit("NFT_B_Clothes_4");
                    assert(spec_entry_clean("NFT_B_Clothes_4"@)) by {
                        assert forall|q: int| 0 <= q < "NFT_B_Clothes_4"@.len() implies !is_stripped_char(
                            #[trigger] "NFT_B_Clothes_4"@[q],
                        ) && "NFT_B_Clothes_4"@[q] != ',' by {}
                    }
                } else if i == 4 {
                    reveal_strlit("NFT_B_Clothes_5");
                    assert(spec_entry_clean("NFT_B_Clothes_5"@)) by {
                        assert forall|q: int| 0 <= q < "NFT_B_Clothes_5"@.len() implies !is_stripped_char(
                            #[trigger] "NFT_B_Clothes_5"@[q],
                        ) && "NFT_B_Clothes_5"@[q] != ',' by {}
                    }
                } else if i == 5 {
                    reveal_strlit("NFT_B_Clothes_6");
                    assert(spec_entry_clean("NFT_B_Clothes_6"@)) by {
                        assert forall|q: int| 0 <= q < "NFT_B_Clothes_6"@.len() implies !is_stripped_char(
                            #[trigger] "NFT_B_Clothes_6"@[q],
                        ) && "NFT_B_Clothes_6"@[q] != ',' by {}
                    }
                }
            },
            Rarity::Uncommon => {
                if i == 0 {
                    reveal_strlit("NFT_B_Clothes_7");
                    assert(spec_entry_clean("NFT_B_Clothes_7"@)) by {
                        assert forall|q: int| 0 <= q < "NFT_B_Clothes_7"@.len() implies !is_stripped_char(
                            #[trigger] "NFT_B_Clothes_7"@[q],
                        ) && "NFT_B_Clothes_7"@[q] != ',' by {}
                    }
                } else if i == 1 {
                    reveal_strlit("NFT_B_Clothes_8");
                    assert(spec_entry_clean("NFT_B_Clothes_8"@)) by {
                        assert forall|q: int| 0 <= q < "NFT_B_Clothes_8"@.len() implies !is_stripped_char(
                            #[trigger] "NFT_B_Clothes_8"@[q],
                        ) && "NFT_B_Clothes_8"@[q] != ',' by {}
                    }
                } else if i == 2 {
                    reveal_strlit("NFT_B_Clothes_9");
                    assert(spec_entry_clean("NFT_B_Clothes_9"@)) by {
                        assert forall|q: int| 0 <= q < "NFT_B_Clothes_9"@.len() implies !is_stripped_char(
                            #[trigger] "NFT_B_Clothes_9"@[q],
                        ) && "NFT_B_Clothes_9"@[q] != ',' by {}
                    }
                }
            },
            Rarity::Rare => {
                if i == 0 {
                    reveal_strlit("NFT_B_Clothes_10");
                    assert(spec_entry_clean("NFT_B_Clothes_10"@)) by {
                        assert forall|q: int| 0 <= q < "NFT_B_Clothes_10"@.len() implies !is_stripped_char(
                            #[trigger] "NFT_B_Clothes_10"@[q],
                        ) && "NFT_B_Clothes_10"@[q] != ',' by {}
                    }
                } else if i == 1 {
                    reveal_strlit("NFT_B_Clothes_12");
                    assert(spec_entry_clean("NFT_B_Clothes_12"@)) by {
                        assert forall|q: int| 0 <= q < "NFT_B_Clothes_12"@.len() implies !is_stripped_char(
                            #[trigger] "NFT_B_Clothes_12"@[q],
                        ) && "NFT_B_Clothes_12"@[q] != ',' by {}
                    }
                } else if i == 2 {
                    reveal_strlit("NFT_B_Clothes_17");
                    assert(spec_entry_clean("NFT_B_Clothes_17"@)) by {
                        assert forall|q: int| 0 <= q < "NFT_B_Clothes_17"@.len() implies !is_stripped_char(
                            #[trigger] "NFT_B_Clothes_17"@[q],
                        ) && "NFT_B_Clothes_17"@[q] != ',' by {}
                    }
                }
            },
            Rarity::Epic => {
                if i == 0 {
                    reveal_strlit("NFT_B_Clothes_11");
                    assert(spec_entry_clean("NFT_B_Clothes_11"@)) by {
                        assert forall|q: int| 0 <= q < "NFT_B_Clothes_11"@.len() implies !is_stripped_char(
                            #[trigger] "NFT_B_Clothes_11"@[q],
                        ) && "NFT_B_Clothes_11"@[q] != ',' by {}
                    }
                } else if i == 1 {
                    reveal_strlit("NFT_B_Clothes_13");
                    assert(spec_entry_clean("NFT_B_Clothes_13"@)) by {
                        assert forall|q: int| 0 <= q < "NFT_B_Clothes_13"@.len() implies !is_stripped_char(
                            #[trigger] "NFT_B_Clothes_13"@[q],
                        ) && "NFT_B_Clothes_13"@[q] != ',' by {}
                    }
                } else if i == 2 {
                    reveal_strlit("NFT_B_Clothes_14");
                    assert(spec_entry_clean("NFT_B_Clothes_14"@)) by {
                        assert forall|q: int| 0 <= q < "NFT_B_Clothes_14"@.len() implies !is_stripped_char(
                            #[trigger] "NFT_B_Clothes_14"@[q],
                        ) && "NFT_B_Clothes_14"@[q] != ',' by {}
                    }
                } else if i == 3 {
                    reveal_strlit("NFT_B_Clothes_15");
                    assert(spec_entry_clean("NFT_B_Clothes_15"@)) by {
                        assert forall|q: int| 0 <= q < "NFT_B_Clothes_15"@.len() implies !is_stripped_char(
                            #[trigger] "NFT_B_Clothes_15"@[q],
                        ) && "NFT_B_Clothes_15"@[q] != ',' by {}
                    }
                } else if i == 4 {
                    reveal_strlit("NFT_B_Clothes_16");
                    assert(spec_entry_clean("NFT_B_Clothes_16"@)) by {
                        assert forall|q: int| 0 <= q < "NFT_B_Clothes_16"@.len() implies !is_stripped_char(
                            #[trigger] "NFT_B_Clothes_16"@[q],
                        ) && "NFT_B_Clothes_16"@[q] != ',' by {}
                    }
                }
            },
            Rarity::Legendary => {
                if i == 0 {
                    reveal_strlit("NFT_B_Clothes_18");
                    assert(spec_entry_clean("NFT_B_Clothes_18"@)) by {
                        assert forall|q: int| 0 <= q < "NFT_B_Clothes_18"@.len() implies !is_stripped_char(
                            #[trigger] "NFT_B_Clothes_18"@[q],
                        ) && "NFT_B_Clothes_18"@[q] != ',' by {}
                    }
                } else if i == 1 {
                    reveal_strlit("NFT_B_Clothes_19");
                    assert(spec_entry_clean("NFT_B_Clothes_19"@)) by {
                        assert forall|q: int| 0 <= q < "NFT_B_Clothes_19"@.len() implies !is_stripped_char(
                            #[trigger] "NFT_B_Clothes_19"@[q],
                        ) && "NFT_B_Clothes_19"@[q] != ',' by {}
                    }
                }
            },
            Rarity::Mythical => {
                if i == 0 {
                    reveal_strlit("NFT_B_Clothes_20");
                    assert(spec_entry_clean("NFT_B_Clothes_20"@)) by {
                        assert forall|q: int| 0 <= q < "NFT_B_Clothes_20"@.len() implies !is_stripped_char(
                            #[trigger] "NFT_B_Clothes_20"@[q],
                        ) && "NFT_B_Clothes_20"@[q] != ',' by {}
                    }
                } else if i == 1 {
                    reveal_strlit("NFT_B_Clothes_21");
                    assert(spec_entry_clean("NFT_B_Clothes_21"@)) by {
                        assert forall|q: int| 0 <= q < "NFT_B_Clothes_21"@.len() implies !is_stripped_char(
                            #[trigger] "NFT_B_Clothes_21"@[q],
                        ) && "NFT_B_Clothes_21"@[q] != ',' by {}
                    }
                }
            },
        },
        Gender::Girl => match r {
            Rarity::Common => {
                if i == 0 {
                    reveal_strlit("NFT_G_Clothes_1");
                    assert(spec_entry_clean("NFT_G_Clothes_1"@)) by {
                        assert forall|q: int| 0 <= q < "NFT_G_Clothes_1"@.len() implies !is_stripped_char(
                            #[trigger] "NFT_G_Clothes_1"@[q],
                        ) && "NFT_G_Clothes_1"@[q] != ',' by {}
                    }
                } else if i == 1 {
                    reveal_strlit("NFT_G_Clothes_2");
                    assert(spec_entry_clean("NFT_G_Clothes_2"@)) by {
                        assert forall|q: int| 0 <= q < "NFT_G_Clothes_2"@.len() implies !is_stripped_char(
                            #[trigger] "NFT_G_Clothes_2"@[q],
                        ) && "NFT_G_Clothes_2"@[q] != ',' by {}
                    }
                } else if i == 2 {
                    reveal_strlit("NFT_G_Clothes_3");
                    assert(spec_entry_clean("NFT_G_Clothes_3"@)) by {
                        assert forall|q: int| 0 <= q < "NFT_G_Clothes_3"@.len() implies !is_stripped_char(
                            #[trigger] "NFT_G_Clothes_3"@[q],
                        ) && "NFT_G_Clothes_3"@[q] != ',' by {}
                    }
                } else if i == 3 {
                    reveal_strlit("NFT_G_Clothes_4");
                    assert(spec_entry_clean("NFT_G_Clothes_4"@)) by {
                        assert forall|q: int| 0 <= q < "NFT_G_Clothes_4"@.len() implies !is_stripped_char(
                            #[trigger] "NFT_G_Clothes_4"@[q],
                        ) && "NFT_G_Clothes_4"@[q] != ',' by {}
                    }
                } else if i == 4 {
                    reveal_strlit("NFT_G_Clothes_5");
                    assert(spec_entry_clean("NFT_G_Clothes_5"@)) by {
                        assert forall|q: int| 0 <= q < "NFT_G_Clothes_5"@.len() implies !is_stripped_char(
                            #[trigger] "NFT_G_Clothes_5"@[q],
                        ) && "NFT_G_Clothes_5"@[q] != ',' by {}
                    }
                } else if i == 5 {
                    reveal_strlit("NFT_G_Clothes_6");
                    assert(spec_entry_clean("NFT_G_Clothes_6"@)) by {
                        assert forall|q: int| 0 <= q < "NFT_G_Clothes_6"@.len() implies !is_stripped_char(
                            #[trigger] "NFT_G_Clothes_6"@[q],
                        ) && "NFT_G_Clothes_6"@[q] != ',' by {}
                    }
                }
            },
            Rarity::Uncommon => {
                if i == 0 {
                    reveal_strlit("NFT_G_Clothes_7");
                    assert(spec_entry_clean("NFT_G_Clothes_7"@)) by {
                        assert forall|q: int| 0 <= q < "NFT_G_Clothes_7"@.len() implies !is_stripped_char(
                            #[trigger] "NFT_G_Clothes_7"@[q],
                        ) && "NFT_G_Clothes_7"@[q] != ',' by {}
                    }
                } else if i == 1 {
                    reveal_strlit("NFT_G_Clothes_8");
                    assert(spec_entry_clean("NFT_G_Clothes_8"@)) by {
                        assert forall|q: int| 0 <= q < "NFT_G_Clothes_8"@.len() implies !is_stripped_char(
                            #[trigger] "NFT_G_Clothes_8"@[q],
                        ) && "NFT_G_Clothes_8"@[q] != ',' by {}
                    }
                } else if i == 2 {
                    reveal_strlit("NFT_G_Clothes_12");
                    assert(spec_entry_clean("NFT_G_Clothes_12"@)) by {
                        assert forall|q: int| 0 <= q < "NFT_G_Clothes_12"@.len() implies !is_stripped_char(
                            #[trigger] "NFT_G_Clothes_12"@[q],
                        ) && "NFT_G_Clothes_12"@[q] != ',' by {}
                    }
                } else if i == 3 {
                    reveal_strlit("NFT_G_Clothes_13");
                    assert(spec_entry_clean("NFT_G_Clothes_13"@)) by {
                        assert forall|q: int| 0 <= q < "NFT_G_Clothes_13"@.len() implies !is_stripped_char(
                            #[trigger] "NFT_G_Clothes_13"@[q],
                        ) && "NFT_G_Clothes_13"@[q] != ',' by {}
                    }
                } else if i == 4 {
                    reveal_strlit("NFT_G_Clothes_14");
                    assert(spec_entry_clean("NFT_G_Clothes_14"@)) by {
                        assert forall|q: int| 0 <= q < "NFT_G_Clothes_14"@.len() implies !is_stripped_char(
                            #[trigger] "NFT_G_Clothes_14"@[q],
                        ) && "NFT_G_Clothes_14"@[q] != ',' by {}
                    }
                }
            },
            Rarity::Rare => {
                if i == 0 {
                    reveal_strlit("NFT_G_Clothes_9");
                    assert(spec_entry_clean("NFT_G_Clothes_9"@)) by {
                        assert forall|q: int| 0 <= q < "NFT_G_Clothes_9"@.len() implies !is_stripped_char(
                            #[trigger] "NFT_G_Clothes_9"@[q],
                        ) && "NFT_G_Clothes_9"@[q] != ',' by {}
                    }
                } else if i == 1 {
                    reveal_strlit("NFT_G_Clothes_10");
                    assert(spec_entry_clean("NFT_G_Clothes_10"@)) by {
                        assert forall|q: int| 0 <= q < "NFT_G_Clothes_10"@.len() implies !is_stripped_char(
                            #[trigger] "NFT_G_Clothes_10"@[q],
                        ) && "NFT_G_Clothes_10"@[q] != ',' by {}
                    }
                }
            },
            Rarity::Epic => {
                if i == 0 {
                    reveal_strlit("NFT_G_Clothes_11");
                    assert(spec_entry_clean("NFT_G_Clothes_11"@)) by {
                        assert forall|q: int| 0 <= q < "NFT_G_Clothes_11"@.len() implies !is_stripped_char(
                            #[trigger] "NFT_G_Clothes_11"@[q],
                        ) && "NFT_G_Clothes_11"@[q] != ',' by {}
                    }
                } else if i == 1 {
                    reveal_strlit("NFT_G_Clothes_15");
                    assert(spec_entry_clean("NFT_G_Clothes_15"@)) by {
                        assert forall|q: int| 0 <= q < "NFT_G_Clothes_15"@.len() implies !is_stripped_char(
                            #[trigger] "NFT_G_Clothes_15"@[q],
                        ) && "NFT_G_Clothes_15"@[q] != ',' by {}
                    }
                } else if i == 2 {
                    reveal_strlit("NFT_G_Clothes_16");
                    assert(spec_entry_clean("NFT_G_Clothes_16"@)) by {
                        assert forall|q: int| 0 <= q < "NFT_G_Clothes_16"@.len() implies !is_stripped_char(
                            #[trigger] "NFT_G_Clothes_16"@[q],
                        ) && "NFT_G_Clothes_16"@[q] != ',' by {}
                    }
                } else if i == 3 {
                    reveal_strlit("NFT_G_Clothes_17");
                    assert(spec_entry_clean("NFT_G_Clothes_17"@)) by {
                        assert forall|q: int| 0 <= q < "NFT_G_Clothes_17"@.len() implies !is_stripped_char(
                            #[trigger] "NFT_G_Clothes_17"@[q],
                        ) && "NFT_G_Clothes_17"@[q] != ',' by {}
                    }
                }
            },
            Rarity::Legendary => {
                if i == 0 {
                    reveal_strlit("NFT_G_Clothes_18");
                    assert(spec_entry_clean("NFT_G_Clothes_18"@)) by {
                        assert forall|q: int| 0 <= q < "NFT_G_Clothes_18"@.len() implies !is_stripped_char(
                            #[trigger] "NFT_G_Clothes_18"@[q],
                        ) && "NFT_G_Clothes_18"@[q] != ',' by {}
                    }
                } else if i == 1 {
                    reveal_strlit("NFT_G_Clothes_19");
                    assert(spec_entry_clean("NFT_G_Clothes_19"@)) by {
                        assert forall|q: int| 0 <= q < "NFT_G_Clothes_19"@.len() implies !is_stripped_char(
                            #[trigger] "NFT_G_Clothes_19"@[q],
                        ) && "NFT_G_Clothes_19"@[q] != ',' by {}
                    }
                }
            },
            Rarity::Mythical => {
                if i == 0 {
                    reveal_strlit("NFT_G_Clothes_20");
                    assert(spec_entry_clean("NFT_G_Clothes_20"@)) by {
                        assert forall|q: int| 0 <= q < "NFT_G_Clothes_20"@.len() implies !is_stripped_char(
                            #[trigger] "NFT_G_Clothes_20"@[q],
                        ) && "NFT_G_Clothes_20"@[q] != ',' by {}
                    }
                } else if i == 1 {
                    reveal_strlit("NFT_G_Clothes_21");
                    assert(spec_entry_clean("NFT_G_Clothes_21"@)) by {
                        assert forall|q: int| 0 <= q < "NFT_G_Clothes_21"@.len() implies !is_stripped_char(
                            #[trigger] "NFT_G_Clothes_21"@[q],
                        ) && "NFT_G_Clothes_21"@[q] != ',' by {}
                    }
                }
            },
        },
    }
}

proof fn lemma_face_clean(g: Gender, r: Rarity, i: int)
    requires
        0 <= i < spec_face(g, r).len(),
    ensures
        spec_entry_clean(spec_face(g, r)[i]),
{
    match g {
        Gender::Boy => match r {
            Rarity::Common => {
                if i == 0 {
                    reveal_strlit("NFT_B_Face_1");
                    assert(spec_entry_clean("NFT_B_Face_1"@)) by {
                        assert forall|q: int| 0 <= q < "NFT_B_Face_1"@.len() implies !is_stripped_char(
                            #[trigger] "NFT_B_Face_1"@[q],
                        ) && "NFT_B_Face_1"@[q] != ',' by {}
                    }
                } else if i == 1 {
                    reveal_strlit("NFT_B_Face_2");
                    assert(spec_entry_clean("NFT_B_Face_2"@)) by {
                        assert forall|q: int| 0 <= q < "NFT_B_Face_2"@.len() implies !is_stripped_char(
                            #[trigger] "NFT_B_Face_2"@[q],
                        ) && "NFT_B_Face_2"@[q] != ',' by {}
                    }
                } else if i == 2 {
                    reveal_strlit("NFT_B_Face_3");
                    assert(spec_entry_clean("NFT_B_Face_3"@)) by {
                        assert forall|q: int| 0 <= q < "NFT_B_Face_3"@.len() implies !is_stripped_char(
                            #[trigger] "NFT_B_Face_3"@[q],
                        ) && "NFT_B_Face_3"@[q] != ',' by {}
                    }
                } else if i == 3 {
                    reveal_strlit("NFT_B_Face_4");
                    assert(spec_entry_clean("NFT_B_Face_4"@)) by {
                        assert forall|q: int| 0 <= q < "NFT_B_Face_4"@.len() implies !is_stripped_char(
                            #[trigger] "NFT_B_Face_4"@[q],
                        ) && "NFT_B_Face_4"@[q] != ',' by {}
                    }
                } else if i == 4 {
                    reveal_strlit("NFT_B_Face_13");
                    assert(spec_entry_clean("NFT_B_Face_13"@)) by {
                        assert forall|q: int| 0 <= q < "NFT_B_Face_13"@.len() implies !is_stripped_char(
                            #[trigger] "NFT_B_Face_13"@[q],
                        ) && "NFT_B_Face_13"@[q] != ',' by {}
                    }
                } else if i == 5 {
                    reveal_strlit("NFT_B_Face_14");
                    assert(spec_entry_clean("NFT_B_Face_14"@)) by {
                        assert forall|q: int| 0 <= q < "NFT_B_Face_14"@.len() implies !is_stripped_char(
                            #[trigger] "NFT_B_Face_14"@[q],
                        ) && "NFT_B_Face_14"@[q] != ',' by {}
                    }
                }
            },
            Rarity::Uncommon => {
                if i == 0 {
                    reveal_strlit("NFT_B_Face_5");
                    assert(spec_entry_clean("NFT_B_Face_5"@)) by {
                        assert forall|q: int| 0 <= q < "NFT_B_Face_5"@.len() implies !is_stripped_char(
                            #[trigger] "NFT_B_Face_5"@[q],
                        ) && "NFT_B_Face_5"@[q] != ',' by {}
                    }
                } else if i == 1 {
                    reveal_strlit("NFT_B_Face_6");
                    assert(spec_entry_clean("NFT_B_Face_6"@)) by {
                        assert forall|q: int| 0 <= q < "NFT_B_Face_6"@.len() implies !is_stripped_char(
                            #[trigger] "NFT_B_Face_6"@[q],
                        ) && "NFT_B_Face_6"@[q] != ',' by {}
                    }
                } else if i == 2 {
                    reveal_strlit("NFT_B_Face_7");
                    assert(spec_entry_clean("NFT_B_Face_7"@)) by {
                        assert forall|q: int| 0 <= q < "NFT_B_Face_7"@.len() implies !is_stripped_char(
                            #[trigger] "NFT_B_Face_7"@[q],
                        ) && "NFT_B_Face_7"@[q] != ',' by {}
                    }
                } else if i == 3 {
                    reveal_strlit("NFT_B_Face_8");
                    assert(spec_entry_clean("NFT_B_Face_8"@)) by {
                        assert forall|q: int| 0 <= q < "NFT_B_Face_8"@.len() implies !is_stripped_char(
                            #[trigger] "NFT_B_Face_8"@[q],
                        ) && "NFT_B_Face_8"@[q] != ',' by {}
                    }
                } else if i == 4 {
                    reveal_strlit("NFT_B_Face_15");
                    assert(spec_entry_clean("NFT_B_Face_15"@)) by {
                        assert forall|q: int| 0 <= q < "NFT_B_Face_15"@.len() implies !is_stripped_char(
                            #[trigger] "NFT_B_Face_15"@[q],
                        ) && "NFT_B_Face_15"@[q] != ',' by {}
                    }
                }
            },
            Rarity::Rare => {
                if i == 0 {
                    reveal_strlit("NFT_B_Face_9");
                    assert(spec_entry_clean("NFT_B_Face_9"@)) by {
                        assert forall|q: int| 0 <= q < "NFT_B_Face_9"@.len() implies !is_stripped_char(
                            #[trigger] "NFT_B_Face_9"@[q],
                        ) && "NFT_B_Face_9"@[q] != ',' by {}
                    }
                } else if i == 1 {
                    reveal_strlit("NFT_B_Face_10");
                    assert(spec_entry_clean("NFT_B_Face_10"@)) by {
                        assert forall|q: int| 0 <= q < "NFT_B_Face_10"@.len() implies !is_stripped_char(
                            #[trigger] "NFT_B_Face_10"@[q],
                        ) && "NFT_B_Face_10"@[q] != ',' by {}
                    }
                } else if i == 2 {
                    reveal_strlit("NFT_B_Face_11");
                    assert(spec_entry_clean("NFT_B_Face_11"@)) by {
                        assert forall|q: int| 0 <= q < "NFT_B_Face_11"@.len() implies !is_stripped_char(
                            #[trigger] "NFT_B_Face_11"@[q],
                        ) && "NFT_B_Face_11"@[q] != ',' by {}
                    }
                } else if i == 3 {
                    reveal_strlit("NFT_B_Face_12");
                    assert(spec_entry_clean("NFT_B_Face_12"@)) by {
                        assert forall|q: int| 0 <= q < "NFT_B_Face_12"@.len() implies !is_stripped_char(
                            #[trigger] "NFT_B_Face_12"@[q],
                        ) && "NFT_B_Face_12"@[q] != ',' by {}
                    }
                }
            },
            Rarity::Epic => {
                if i == 0 {
                    reveal_strlit("NFT_B_Face_16");
                    assert(spec_entry_clean("NFT_B_Face_16"@)) by {
                        assert forall|q: int| 0 <= q < "NFT_B_Face_16"@.len() implies !is_stripped_char(
                            #[trigger] "NFT_B_Face_16"@[q],
                        ) && "NFT_B_Face_16"@[q] != ',' by {}
                    }
                } else if i == 1 {
                    reveal_strlit("NFT_B_Face_17");
                    assert(spec_entry_clean("NFT_B_Face_17"@)) by {
                        assert forall|q: int| 0 <= q < "NFT_B_Face_17"@.len() implies !is_stripped_char(
                            #[trigger] "NFT_B_Face_17"@[q],
                        ) && "NFT_B_Face_17"@[q] != ',' by {}
                    }
                } else if i == 2 {
                    reveal_strlit("NFT_B_Face_18");
                    assert(spec_entry_clean("NFT_B_Face_18"@)) by {
                        assert forall|q: int| 0 <= q < "NFT_B_Face_18"@.len() implies !is_stripped_char(
                            #[trigger] "NFT_B_Face_18"@[q],
                        ) && "NFT_B_Face_18"@[q] != ',' by {}
                    }
                } else if i == 3 {
                    reveal_strlit("NFT_B_Face_19");
                    assert(spec_entry_clean("NFT_B_Face_19"@)) by {
                        assert forall|q: int| 0 <= q < "NFT_B_Face_19"@.len() implies !is_stripped_char(
                            #[trigger] "NFT_B_Face_19"@[q],
                        ) && "NFT_B_Face_19"@[q] != ',' by {}
                    }
                } else if i == 4 {
                    reveal_strlit("NFT_B_Face_23");
                    assert(spec_entry_clean("NFT_B_Face_23"@)) by {
                        assert forall|q: int| 0 <= q < "NFT_B_Face_23"@.len() implies !is_stripped_char(
                            #[trigger] "NFT_B_Face_23"@[q],
                        ) && "NFT_B_Face_23"@[q] != ',' by {}
                    }
                } else if i == 5 {
                    reveal_strlit("NFT_B_Face_24");
                    assert(spec_entry_clean("NFT_B_Face_24"@)) by {
                        assert forall|q: int| 0 <= q < "NFT_B_Face_24"@.len() implies !is_stripped_char(
                            #[trigger] "NFT_B_Face_24"@[q],
                        ) && "NFT_B_Face_24"@[q] != ',' by {}
                    }
                }
            },
            Rarity::Legendary => {
                if i == 0 {
                    reveal_strlit("NFT_B_Face_20");
                    assert(spec_entry_clean("NFT_B_Face_20"@)) by {
                        assert forall|q: int| 0 <= q < "NFT_B_Face_20"@.len() implies !is_stripped_char(
                            #[trigger] "NFT_B_Face_20"@[q],
                        ) && "NFT_B_Face_20"@[q] != ',' by {}
                    }
                } else if i == 1 {
                    reveal_strlit("NFT_B_Face_21");
                    assert(spec_entry_clean("NFT_B_Face_21"@)) by {
                        assert forall|q: int| 0 <= q < "NFT_B_Face_21"@.len() implies !is_stripped_char(
                            #[trigger] "NFT_B_Face_21"@[q],
                        ) && "NFT_B_Face_21"@[q] != ',' by {}
                    }
                } else if i == 2 {
                    reveal_strlit("NFT_B_Face_22");
                    assert(spec_entry_clean("NFT_B_Face_22"@)) by {
                        assert forall|q: int| 0 <= q < "NFT_B_Face_22"@.len() implies !is_stripped_char(
                            #[trigger] "NFT_B_Face_22"@[q],
                        ) && "NFT_B_Face_22"@[q] != ',' by {}
                    }
                } else if i == 3 {
                    reveal_strlit("NFT_B_Face_25");
                    assert(spec_entry_clean("NFT_B_Face_25"@)) by {
                        assert forall|q: int| 0 <= q < "NFT_B_Face_25"@.len() implies !is_stripped_char(
                            #[trigger] "NFT_B_Face_25"@[q],
                        ) && "NFT_B_Face_25"@[q] != ',' by {}
                    }
                } else if i == 4 {
                    reveal_strlit("NFT_B_Face_27");
                    assert(spec_entry_clean("NFT_B_Face_27"@)) by {
                        assert forall|q: int| 0 <= q < "NFT_B_Face_27"@.len() implies !is_stripped_char(
                            #[trigger] "NFT_B_Face_27"@[q],
                        ) && "NFT_B_Face_27"@[q] != ',' by {}
                    }
                }
            },
            Rarity::Mythical => {
                if i == 0 {
                    reveal_strlit("NFT_B_Face_26");
                    assert(spec_entry_clean("NFT_B_Face_26"@)) by {
                        assert forall|q: int| 0 <= q < "NFT_B_Face_26"@.len() implies !is_stripped_char(
                            #[trigger] "NFT_B_Face_26"@[q],
                        ) && "NFT_B_Face_26"@[q] != ',' by {}
                    }
                } else if i == 1 {
                    reveal_strlit("NFT_B_Face_28");
                    assert(spec_entry_clean("NFT_B_Face_28"@)) by {
                        assert forall|q: int| 0 <= q < "NFT_B_Face_28"@.len() implies !is_stripped_char(
                            #[trigger] "NFT_B_Face_28"@[q],
                        ) && "NFT_B_Face_28"@[q] != ',' by {}
                    }
                }
            },
        },
        Gender::Girl => match r {
            Rarity::Common => {
                if i == 0 {
                    reveal_strlit("NFT_G_Face_6");
                    assert(spec_entry_clean("NFT_G_Face_6"@)) by {
                        assert forall|q: int| 0 <= q < "NFT_G_Face_6"@.len() implies !is_stripped_char(
                            #[trigger] "NFT_G_Face_6"@[q],
                        ) && "NFT_G_Face_6"@[q] != ',' by {}
                    }
                } else if i == 1 {
                    reveal_strlit("NFT_G_Face_7");
                    assert(spec_entry_clean("NFT_G_Face_7"@)) by {
                        assert forall|q: int| 0 <= q < "NFT_G_Face_7"@.len() implies !is_stripped_char(
                            #[trigger] "NFT_G_Face_7"@[q],
                        ) && "NFT_G_Face_7"@[q] != ',' by {}
                    }
                } else if i == 2 {
                    reveal_strlit("NFT_G_Face_8");
                    assert(spec_entry_clean("NFT_G_Face_8"@)) by {
                        assert forall|q: int| 0 <= q < "NFT_G_Face_8"@.len() implies !is_stripped_char(
                            #[trigger] "NFT_G_Face_8"@[q],
                        ) && "NFT_G_Face_8"@[q] != ',' by {}
                    }
                } else if i == 3 {
                    reveal_strlit("NFT_G_Face_9");
                    assert(spec_entry_clean("NFT_G_Face_9"@)) by {
                        assert forall|q: int| 0 <= q < "NFT_G_Face_9"@.len() implies !is_stripped_char(
                            #[trigger] "NFT_G_Face_9"@[q],
                        ) && "NFT_G_Face_9"@[q] != ',' by {}
                    }
                } else if i == 4 {
                    reveal_strlit("NFT_G_Face_14");
                    assert(spec_entry_clean("NFT_G_Face_14"@)) by {
                        assert forall|q: int| 0 <= q < "NFT_G_Face_14"@.len() implies !is_stripped_char(
                            #[trigger] "NFT_G_Face_14"@[q],
                        ) && "NFT_G_Face_14"@[q] != ',' by {}
                    }
                }
            },
            Rarity::Uncommon => {
                if i == 0 {
                    reveal_strlit("NFT_G_Face_1");
                    assert(spec_entry_clean("NFT_G_Face_1"@)) by {
                        assert forall|q: int| 0 <= q < "NFT_G_Face_1"@.len() implies !is_stripped_char(
                            #[trigger] "NFT_G_Face_1"@[q],
                        ) && "NFT_G_Face_1"@[q] != ',' by {}
                    }
                } else if i == 1 {
                    reveal_strlit("NFT_G_Face_2");
                    assert(spec_entry_clean("NFT_G_Face_2"@)) by {
                        assert forall|q: int| 0 <= q < "NFT_G_Face_2"@.len() implies !is_stripped_char(
                            #[trigger] "NFT_G_Face_2"@[q],
                        ) && "NFT_G_Face_2"@[q] != ',' by {}
                    }
                } else if i == 2 {
                    reveal_strlit("NFT_G_Face_3");
                    assert(spec_entry_clean("NFT_G_Face_3"@)) by {
                        assert forall|q: int| 0 <= q < "NFT_G_Face_3"@.len() implies !is_stripped_char(
                            #[trigger] "NFT_G_Face_3"@[q],
                        ) && "NFT_G_Face_3"@[q] != ',' by {}
                    }
                } else if i == 3 {
                    reveal_strlit("NFT_G_Face_4");
                    assert(spec_entry_clean("NFT_G_Face_4"@)) by {
                        assert forall|q: int| 0 <= q < "NFT_G_Face_4"@.len() implies !is_stripped_char(
                            #[trigger] "NFT_G_Face_4"@[q],
                        ) && "NFT_G_Face_4"@[q] != ',' by {}
                    }
                } else if i == 4 {
                    reveal_strlit("NFT_G_Face_5");
                    assert(spec_entry_clean("NFT_G_Face_5"@)) by {
                        assert forall|q: int| 0 <= q < "NFT_G_Face_5"@.len() implies !is_stripped_char(
                            #[trigger] "NFT_G_Face_5"@[q],
                        ) && "NFT_G_Face_5"@[q] != ',' by {}
                    }
                }
            },
            Rarity::Rare => {
                if i == 0 {
                    reveal_strlit("NFT_G_Face_10");
                    assert(spec_entry_clean("NFT_G_Face_10"@)) by {
                        assert forall|q: int| 0 <= q < "NFT_G_Face_10"@.len() implies !is_stripped_char(
                            #[trigger] "NFT_G_Face_10"@[q],
                        ) && "NFT_G_Face_10"@[q] != ',' by {}
                    }
                } else if i == 1 {
                    reveal_strlit("NFT_G_Face_11");
                    assert(spec_entry_clean("NFT_G_Face_11"@)) by {
                        assert forall|q: int| 0 <= q < "NFT_G_Face_11"@.len() implies !is_stripped_char(
                            #[trigger] "NFT_G_Face_11"@[q],
                        ) && "NFT_G_Face_11"@[q] != ',' by {}
                    }
                } else if i == 2 {
                    reveal_strlit("NFT_G_Face_12");
                    assert(spec_entry_clean("NFT_G_Face_12"@)) by {
                        assert forall|q: int| 0 <= q < "NFT_G_Face_12"@.len() implies !is_stripped_char(
                            #[trigger] "NFT_G_Face_12"@[q],
                        ) && "NFT_G_Face_12"@[q] != ',' by {}
                    }
                } else if i == 3 {
                    reveal_strlit("NFT_G_Face_13");
                    assert(spec_entry_clean("NFT_G_Face_13"@)) by {
                        assert forall|q: int| 0 <= q < "NFT_G_Face_13"@.len() implies !is_stripped_char(
                            #[trigger] "NFT_G_Face_13"@[q],
                        ) && "NFT_G_Face_13"@[q] != ',' by {}
                    }
                }
            },
            Rarity::Epic => {
                if i == 0 {
                    reveal_strlit("NFT_G_Face_15");
                    assert(spec_entry_clean("NFT_G_Face_15"@)) by {
                        assert forall|q: int| 0 <= q < "NFT_G_Face_15"@.len() implies !is_stripped_char(
                            #[trigger] "NFT_G_Face_15"@[q],
                        ) && "NFT_G_Face_15"@[q] != ',' by {}
                    }
                } else if i == 1 {
                    reveal_strlit("NFT_G_Face_16");
                    assert(spec_entry_clean("NFT_G_Face_16"@)) by {
                        assert forall|q: int| 0 <= q < "NFT_G_Face_16"@.len() implies !is_stripped_char(
                            #[trigger] "NFT_G_Face_16"@[q],
                        ) && "NFT_G_Face_16"@[q] != ',' by {}
                    }
                } else if i == 2 {
                    reveal_strlit("NFT_G_Face_17");
                    assert(spec_entry_clean("NFT_G_Face_17"@)) by {
                        assert forall|q: int| 0 <= q < "NFT_G_Face_17"@.len() implies !is_stripped_char(
                            #[trigger] "NFT_G_Face_17"@[q],
                        ) && "NFT_G_Face_17"@[q] != ',' by {}
                    }
                }
            },
            Rarity::Legendary => {
                if i == 0 {
                    reveal_strlit("NFT_G_Face_18");
                    assert(spec_entry_clean("NFT_G_Face_18"@)) by {
                        assert forall|q: int| 0 <= q < "NFT_G_Face_18"@.len() implies !is_stripped_char(
                            #[trigger] "NFT_G_Face_18"@[q],
                        ) && "NFT_G_Face_18"@[q] != ',' by {}
                    }
                } else if i == 1 {
                    reveal_strlit("NFT_G_Face_19");
                    assert(spec_entry_clean("NFT_G_Face_19"@)) by {
                        assert forall|q: int| 0 <= q < "NFT_G_Face_19"@.len() implies !is_stripped_char(
                            #[trigger] "NFT_G_Face_19"@[q],
                        ) && "NFT_G_Face_19"@[q] != ',' by {}
                    }
                } else if i == 2 {
                    reveal_strlit("NFT_G_Face_21");
                    assert(spec_entry_clean("NFT_G_Face_21"@)) by {
                        assert forall|q: int| 0 <= q < "NFT_G_Face_21"@.len() implies !is_stripped_char(
                            #[trigger] "NFT_G_Face_21"@[q],
                        ) && "NFT_G_Face_21"@[q] != ',' by {}
                    }
                } else if i == 3 {
                    reveal_strlit("NFT_G_Face_22");
                    assert(spec_entry_clean("NFT_G_Face_22"@)) by {
                        assert forall|q: int| 0 <= q < "NFT_G_Face_22"@.len() implies !is_stripped_char(
                            #[trigger] "NFT_G_Face_22"@[q],
                        ) && "NFT_G_Face_22"@[q] != ',' by {}
                    }
                }
            },
            Rarity::Mythical => {
                if i == 0 {
                    reveal_strlit("NFT_G_Face_20");
                    assert(spec_entry_clean("NFT_G_Face_20"@)) by {
                        assert forall|q: int| 0 <= q < "NFT_G_Face_20"@.len() implies !is_stripped_char(
                            #[trigger] "NFT_G_Face_20"@[q],
                        ) && "NFT_G_Face_20"@[q] != ',' by {}
                    }
                } else if i == 1 {
                    reveal_strlit("NFT_G_Face_23");
                    assert(spec_entry_clean("NFT_G_Face_23"@)) by {
                        assert forall|q: int| 0 <= q < "NFT_G_Face_23"@.len() implies !is_stripped_char(
                            #[trigger] "NFT_G_Face_23"@[q],
                        ) && "NFT_G_Face_23"@[q] != ',' by {}
                    }
                }
            },
        },
    }
}

proof fn lemma_face_acc_clean(r: Rarity, i: int)
    requires
        0 <= i < spec_face_acc(r).len(),
    ensures
        spec_entry_clean(spec_face_acc(r)[i]),
{
    match r {
        Rarity::Common => {
        },
        Rarity::Uncommon => {
            if i == 0 {
                reveal_strlit("NFT_Face_Acc_1");
                assert(spec_entry_clean("NFT_Face_Acc_1"@)) by {
                    assert forall|q: int| 0 <= q < "NFT_Face_Acc_1"@.len() implies !is_stripped_char(
                        #[trigger] "NFT_Face_Acc_1"@[q],
                    ) && "NFT_Face_Acc_1"@[q] != ',' by {}
                }
            } else if i == 1 {
                reveal_strlit("NFT_Face_Acc_2");
                assert(spec_entry_clean("NFT_Face_Acc_2"@)) by {
                    assert forall|q: int| 0 <= q < "NFT_Face_Acc_2"@.len() implies !is_stripped_char(
                        #[trigger] "NFT_Face_Acc_2"@[q],
                    ) && "NFT_Face_Acc_2"@[q] != ',' by {}
                }
            }
        },
        Rarity::Rare => {
            if i == 0 {
                reveal_strlit("NFT_Face_Acc_5");
                assert(spec_entry_clean("NFT_Face_Acc_5"@)) by {
                    assert forall|q: int| 0 <= q < "NFT_Face_Acc_5"@.len() implies !is_stripped_char(
                        #[trigger] "NFT_Face_Acc_5"@[q],
                    ) && "NFT_Face_Acc_5"@[q] != ',' by {}
                }
            } else if i == 1 {
                reveal_strlit("NFT_Face_Acc_6");
                assert(spec_entry_clean("NFT_Face_Acc_6"@)) by {
                    assert forall|q: int| 0 <= q < "NFT_Face_Acc_6"@.len() implies !is_stripped_char(
                        #[trigger] "NFT_Face_Acc_6"@[q],
                    ) && "NFT_Face_Acc_6"@[q] != ',' by {}
                }
            }
        },
        Rarity::Epic => {
            if i == 0 {
                reveal_strlit("NFT_Face_Acc_3");
                assert(spec_entry_clean("NFT_Face_Acc_3"@)) by {
                    assert forall|q: int| 0 <= q < "NFT_Face_Acc_3"@.len() implies !is_stripped_char(
                        #[trigger] "NFT_Face_Acc_3"@[q],
                    ) && "NFT_Face_Acc_3"@[q] != ',' by {}
                }
            } else if i == 1 {
                reveal_strlit("NFT_Face_Acc_4");
                assert(spec_entry_clean("NFT_Face_Acc_4"@)) by {
                    assert forall|q: int| 0 <= q < "NFT_Face_Acc_4"@.len() implies !is_stripped_char(
                        #[trigger] "NFT_Face_Acc_4"@[q],
                    ) && "NFT_Face_Acc_4"@[q] != ',' by {}
                }
            }
        },
        Rarity::Legendary => {
            if i == 0 {
                reveal_strlit("NFT_Face_Acc_7");
                assert(spec_entry_clean("NFT_Face_Acc_7"@)) by {
                    assert forall|q: int| 0 <= q < "NFT_Face_Acc_7"@.len() implies !is_stripped_char(
                        #[trigger] "NFT_Face_Acc_7"@[q],
                    ) && "NFT_Face_Acc_7"@[q] != ',' by {}
                }
            } else if i == 1 {
                reveal_strlit("NFT_Face_Acc_8");
                assert(spec_entry_clean("NFT_Face_Acc_8"@)) by {
                    assert forall|q: int| 0 <= q < "NFT_Face_Acc_8"@.len() implies !is_stripped_char(
                        #[trigger] "NFT_Face_Acc_8"@[q],
                    ) && "NFT_Face_Acc_8"@[q] != ',' by {}
                }
            }
        },
        Rarity::Mythical => {
            if i == 0 {
                reveal_strlit("NFT_Face_Acc_9");
                assert(spec_entry_clean("NFT_Face_Acc_9"@)) by {
                    assert forall|q: int| 0 <= q < "NFT_Face_Acc_9"@.len() implies !is_stripped_char(
                        #[trigger] "NFT_Face_Acc_9"@[q],
                    ) && "NFT_Face_Acc_9"@[q] != ',' by {}
                }
            }
        },
    }
}

proof fn lemma_hair_clean(g: Gender, r: Rarity, i: int)
    requires
        0 <= i < spec_hair(g, r).len(),
    ensures
        spec_entry_clean(spec_hair(g, r)[i]),
{
    match g {
        Gender::Boy => match r {
            Rarity::Common => {
                if i == 0 {
                    reveal_strlit("NFT_B_Hair_11");
                    assert(spec_entry_clean("NFT_B_Hair_11"@)) by {
                        assert forall|q: int| 0 <= q < "NFT_B_Hair_11"@.len() implies !is_stripped_char(
                            #[trigger] "NFT_B_Hair_11"@[q],
                        ) && "NFT_B_Hair_11"@[q] != ',' by {}
                    }
                } else if i == 1 {
                    reveal_strlit("NFT_B_Hair_12");
                    assert(spec_entry_clean("NFT_B_Hair_12"@)) by {
                        assert forall|q: int| 0 <= q < "NFT_B_Hair_12"@.len() implies !is_stripped_char(
                            #[trigger] "NFT_B_Hair_12"@[q],
                        ) && "NFT_B_Hair_12"@[q] != ',' by {}
                    }
                } else if i == 2 {
                    reveal_strlit("NFT_B_Hair_13");
                    assert(spec_entry_clean("NFT_B_Hair_13"@)) by {
                        assert forall|q: int| 0 <= q < "NFT_B_Hair_13"@.len() implies !is_stripped_char(
                            #[trigger] "NFT_B_Hair_13"@[q],
                        ) && "NFT_B_Hair_13"@[q] != ',' by {}
                    }
                } else if i == 3 {
                    reveal_strlit("NFT_B_Hair_14");
                    assert(spec_entry_clean("NFT_B_Hair_14"@)) by {
                        assert forall|q: int| 0 <= q < "NFT_B_Hair_14"@.len() implies !is_stripped_char(
                            #[trigger] "NFT_B_Hair_14"@[q],
                        ) && "NFT_B_Hair_14"@[q] != ',' by {}
                    }
                } else if i == 4 {
                    reveal_strlit("NFT_B_Hair_15");
                    assert(spec_entry_clean("NFT_B_Hair_15"@)) by {
                        assert forall|q: int| 0 <= q < "NFT_B_Hair_15"@.len() implies !is_stripped_char(
                            #[trigger] "NFT_B_Hair_15"@[q],
                        ) && "NFT_B_Hair_15"@[q] != ',' by {}
                    }
                } else if i == 5 {
                    reveal_strlit("NFT_B_Hair_16");
                    assert(spec_entry_clean("NFT_B_Hair_16"@)) by {
                        assert forall|q: int| 0 <= q < "NFT_B_Hair_16"@.len() implies !is_stripped_char(
                            #[trigger] "NFT_B_Hair_16"@[q],
                        ) && "NFT_B_Hair_16"@[q] != ',' by {}
                    }
                } else if i == 6 {
                    reveal_strlit("NFT_B_Hair_17");
                    assert(spec_entry_clean("NFT_B_Hair_17"@)) by {
                        assert forall|q: int| 0 <= q < "NFT_B_Hair_17"@.len() implies !is_stripped_char(
                            #[trigger] "NFT_B_Hair_17"@[q],
                        ) && "NFT_B_Hair_17"@[q] != ',' by {}
                    }
                } else if i == 7 {
                    reveal_strlit("NFT_B_Hair_18");
                    assert(spec_entry_clean("NFT_B_Hair_18"@)) by {
                        assert forall|q: int| 0 <= q < "NFT_B_Hair_18"@.len() implies !is_stripped_char(
                            #[trigger] "NFT_B_Hair_18"@[q],
                        ) && "NFT_B_Hair_18"@[q] != ',' by {}
                    }
                } else if i == 8 {
                    reveal_strlit("NFT_B_Hair_19");
                    assert(spec_entry_clean("NFT_B_Hair_19"@)) by {
                        assert forall|q: int| 0 <= q < "NFT_B_Hair_19"@.len() implies !is_stripped_char(
                            #[trigger] "NFT_B_Hair_19"@[q],
                        ) && "NFT_B_Hair_19"@[q] != ',' by {}
                    }
                } else if i == 9 {
                    reveal_strlit("NFT_B_Hair_20");
                    assert(spec_entry_clean("NFT_B_Hair_20"@)) by {
                        assert forall|q: int| 0 <= q < "NFT_B_Hair_20"@.len() implies !is_stripped_char(
                            #[trigger] "NFT_B_Hair_20"@[q],
                        ) && "NFT_B_Hair_20"@[q] != ',' by {}
                    }
                } else if i == 10 {
                    reveal_strlit("NFT_B_Hair_21");
                    assert(spec_entry_clean("NFT_B_Hair_21"@)) by {
                        assert forall|q: int| 0 <= q < "NFT_B_Hair_21"@.len() implies !is_stripped_char(
                            #[trigger] "NFT_B_Hair_21"@[q],
                        ) && "NFT_B_Hair_21"@[q] != ',' by {}
                    }
                } else if i == 11 {
                    reveal_strlit("NFT_B_Hair_22");
                    assert(spec_entry_clean("NFT_B_Hair_22"@)) by {
                        assert forall|q: int| 0 <= q < "NFT_B_Hair_22"@.len() implies !is_stripped_char(
                            #[trigger] "NFT_B_Hair_22"@[q],
                        ) && "NFT_B_Hair_22"@[q] != ',' by {}
                    }
                } else if i == 12 {
                    reveal_strlit("NFT_B_Hair_23");
                    assert(spec_entry_clean("NFT_B_Hair_23"@)) by {
                        assert forall|q: int| 0 <= q < "NFT_B_Hair_23"@.len() implies !is_stripped_char(
                            #[trigger] "NFT_B_Hair_23"@[q],
                        ) && "NFT_B_Hair_23"@[q] != ',' by {}
                    }
                } else if i == 13 {
                    reveal_strlit("NFT_B_Hair_24");
                    assert(spec_entry_clean("NFT_B_Hair_24"@)) by {
                        assert forall|q: int| 0 <= q < "NFT_B_Hair_24"@.len() implies !is_stripped_char(
                            #[trigger] "NFT_B_Hair_24"@[q],
                        ) && "NFT_B_Hair_24"@[q] != ',' by {}
                    }
                } else if i == 14 {
                    reveal_strlit("NFT_B_Hair_25");
                    assert(spec_entry_clean("NFT_B_Hair_25"@)) by {
                        assert forall|q: int| 0 <= q < "NFT_B_Hair_25"@.len() implies !is_stripped_char(
                            #[trigger] "NFT_B_Hair_25"@[q],
                        ) && "NFT_B_Hair_25"@[q] != ',' by {}
                    }
                } else if i == 15 {
                    reveal_strlit("NFT_B_Hair_26");
                    assert(spec_entry_clean("NFT_B_Hair_26"@)) by {
                        assert forall|q: int| 0 <= q < "NFT_B_Hair_26"@.len() implies !is_stripped_char(
                            #[trigger] "NFT_B_Hair_26"@[q],
                        ) && "NFT_B_Hair_26"@[q] != ',' by {}
                    }
                } else if i == 16 {
                    reveal_strlit("NFT_B_Hair_27");
                    assert(spec_entry_clean("NFT_B_Hair_27"@)) by {
                        assert forall|q: int| 0 <= q < "NFT_B_Hair_27"@.len() implies !is_stripped_char(
                            #[trigger] "NFT_B_Hair_27"@[q],
                        ) && "NFT_B_Hair_27"@[q] != ',' by {}
                    }
                } else if i == 17 {
                    reveal_strlit("NFT_B_Hair_28");
                    assert(spec_entry_clean("NFT_B_Hair_28"@)) by {
                        assert forall|q: int| 0 <= q < "NFT_B_Hair_28"@.len() implies !is_stripped_char(
                            #[trigger] "NFT_B_Hair_28"@[q],
                        ) && "NFT_B_Hair_28"@[q] != ',' by {}
                    }
                } else if i == 18 {
                    reveal_strlit("NFT_B_Hair_29");
                    assert(spec_entry_clean("NFT_B_Hair_29"@)) by {
                        assert forall|q: int| 0 <= q < "NFT_B_Hair_29"@.len() implies !is_stripped_char(
                            #[trigger] "NFT_B_Hair_29"@[q],
                        ) && "NFT_B_Hair_29"@[q] != ',' by {}
                    }
                } else if i == 19 {
                    reveal_strlit("NFT_B_Hair_30");
                    assert(spec_entry_clean("NFT_B_Hair_30"@)) by {
                        assert forall|q: int| 0 <= q < "NFT_B_Hair_30"@.len() implies !is_stripped_char(
                            #[trigger] "NFT_B_Hair_30"@[q],
                        ) && "NFT_B_Hair_30"@[q] != ',' by {}
                    }
                } else if i == 20 {
                    reveal_strlit("NFT_B_Hair_31");
                    assert(spec_entry_clean("NFT_B_Hair_31"@)) by {
                        assert forall|q: int| 0 <= q < "NFT_B_Hair_31"@.len() implies !is_stripped_char(
                            #[trigger] "NFT_B_Hair_31"@[q],
                        ) && "NFT_B_Hair_31"@[q] != ',' by {}
                    }
                }
            },
            Rarity::Uncommon => {
                if i == 0 {
                    reveal_strlit("NFT_B_Hair_2");
                    assert(spec_entry_clean("NFT_B_Hair_2"@)) by {
                        assert forall|q: int| 0 <= q < "NFT_B_Hair_2"@.len() implies !is_stripped_char(
                            #[trigger] "NFT_B_Hair_2"@[q],
                        ) && "NFT_B_Hair_2"@[q] != ',' by {}
                    }
                } else if i == 1 {
                    reveal_strlit("NFT_B_Hair_3");
                    assert(spec_entry_clean("NFT_B_Hair_3"@)) by {
                        assert forall|q: int| 0 <= q < "NFT_B_Hair_3"@.len() implies !is_stripped_char(
                            #[trigger] "NFT_B_Hair_3"@[q],
                        ) && "NFT_B_Hair_3"@[q] != ',' by {}
                    }
                } else if i == 2 {
                    reveal_strlit("NFT_B_Hair_4");
                    assert(spec_entry_clean("NFT_B_Hair_4"@)) by {
                        assert forall|q: int| 0 <= q < "NFT_B_Hair_4"@.len() implies !is_stripped_char(
                            #[trigger] "NFT_B_Hair_4"@[q],
                        ) && "NFT_B_Hair_4"@[q] != ',' by {}
                    }
                } else if i == 3 {
                    reveal_strlit("NFT_B_Hair_7");
                    assert(spec_entry_clean("NFT_B_Hair_7"@)) by {
                        assert forall|q: int| 0 <= q < "NFT_B_Hair_7"@.len() implies !is_stripped_char(
                            #[trigger] "NFT_B_Hair_7"@[q],
                        ) && "NFT_B_Hair_7"@[q] != ',' by {}
                    }
                } else if i == 4 {
                    reveal_strlit("NFT_B_Hair_8");
                    assert(spec_entry_clean("NFT_B_Hair_8"@)) by {
                        assert forall|q: int| 0 <= q < "NFT_B_Hair_8"@.len() implies !is_stripped_char(
                            #[trigger] "NFT_B_Hair_8"@[q],
                        ) && "NFT_B_Hair_8"@[q] != ',' by {}
                    }
                } else if i == 5 {
                    reveal_strlit("NFT_B_Hair_9");
                    assert(spec_entry_clean("NFT_B_Hair_9"@)) by {
                        assert forall|q: int| 0 <= q < "NFT_B_Hair_9"@.len() implies !is_stripped_char(
                            #[trigger] "NFT_B_Hair_9"@[q],
                        ) && "NFT_B_Hair_9"@[q] != ',' by {}
                    }
                } else if i == 6 {
                    reveal_strlit("NFT_B_Hair_10");
                    assert(spec_entry_clean("NFT_B_Hair_10"@)) by {
                        assert forall|q: int| 0 <= q < "NFT_B_Hair_10"@.len() implies !is_stripped_char(
                            #[trigger] "NFT_B_Hair_10"@[q],
                        ) && "NFT_B_Hair_10"@[q] != ',' by {}
                    }
                }
            },
            Rarity::Rare => {
                if i == 0 {
                    reveal_strlit("NFT_B_Hair_32");
                    assert(spec_entry_clean("NFT_B_Hair_32"@)) by {
                        assert forall|q: int| 0 <= q < "NFT_B_Hair_32"@.len() implies !is_stripped_char(
                            #[trigger] "NFT_B_Hair_32"@[q],
                        ) && "NFT_B_Hair_32"@[q] != ',' by {}
                    }
                } else if i == 1 {
                    reveal_strlit("NFT_B_Hair_33");
                    assert(spec_entry_clean("NFT_B_Hair_33"@)) by {
                        assert forall|q: int| 0 <= q < "NFT_B_Hair_33"@.len() implies !is_stripped_char(
                            #[trigger] "NFT_B_Hair_33"@[q],
                        ) && "NFT_B_Hair_33"@[q] != ',' by {}
                    }
                } else if i == 2 {
                    reveal_strlit("NFT_B_Hair_34");
                    assert(spec_entry_clean("NFT_B_Hair_34"@)) by {
                        assert forall|q: int| 0 <= q < "NFT_B_Hair_34"@.len() implies !is_stripped_char(
                            #[trigger] "NFT_B_Hair_34"@[q],
                        ) && "NFT_B_Hair_34"@[q] != ',' by {}
                    }
                } else if i == 3 {
                    reveal_strlit("NFT_B_Hair_35");
                    assert(spec_entry_clean("NFT_B_Hair_35"@)) by {
                        assert forall|q: int| 0 <= q < "NFT_B_Hair_35"@.len() implies !is_stripped_char(
                            #[trigger] "NFT_B_Hair_35"@[q],
                        ) && "NFT_B_Hair_35"@[q] != ',' by {}
                    }
                } else if i == 4 {
                    reveal_strlit("NFT_B_Hair_36");
                    assert(spec_entry_clean("NFT_B_Hair_36"@)) by {
                        assert forall|q: int| 0 <= q < "NFT_B_Hair_36"@.len() implies !is_stripped_char(
                            #[trigger] "NFT_B_Hair_36"@[q],
                        ) && "NFT_B_Hair_36"@[q] != ',' by {}
                    }
                } else if i == 5 {
                    reveal_strlit("NFT_B_Hair_37");
                    assert(spec_entry_clean("NFT_B_Hair_37"@)) by {
                        assert forall|q: int| 0 <= q < "NFT_B_Hair_37"@.len() implies !is_stripped_char(
                            #[trigger] "NFT_B_Hair_37"@[q],
                        ) && "NFT_B_Hair_37"@[q] != ',' by {}
                    }
                } else if i == 6 {
                    reveal_strlit("NFT_B_Hair_38");
                    assert(spec_entry_clean("NFT_B_Hair_38"@)) by {
                        assert forall|q: int| 0 <= q < "NFT_B_Hair_38"@.len() implies !is_stripped_char(
                            #[trigger] "NFT_B_Hair_38"@[q],
                        ) && "NFT_B_Hair_38"@[q] != ',' by {}
                    }
                }
            },
            Rarity::Epic => {
                if i == 0 {
                    reveal_strlit("NFT_B_Hair_1");
                    assert(spec_entry_clean("NFT_B_Hair_1"@)) by {
                        assert forall|q: int| 0 <= q < "NFT_B_Hair_1"@.len() implies !is_stripped_char(
                            #[trigger] "NFT_B_Hair_1"@[q],
                        ) && "NFT_B_Hair_1"@[q] != ',' by {}
                    }
                } else if i == 1 {
                    reveal_strlit("NFT_B_Hair_5");
                    assert(spec_entry_clean("NFT_B_Hair_5"@)) by {
                        assert forall|q: int| 0 <= q < "NFT_B_Hair_5"@.len() implies !is_stripped_char(
                            #[trigger] "NFT_B_Hair_5"@[q],
                        ) && "NFT_B_Hair_5"@[q] != ',' by {}
                    }
                } else if i == 2 {
                    reveal_strlit("NFT_B_Hair_6");
                    assert(spec_entry_clean("NFT_B_Hair_6"@)) by {
                        assert forall|q: int| 0 <= q < "NFT_B_Hair_6"@.len() implies !is_stripped_char(
                            #[trigger] "NFT_B_Hair_6"@[q],
                        ) && "NFT_B_Hair_6"@[q] != ',' by {}
                    }
                }
            },
            Rarity::Legendary => {
                if i == 0 {
                    reveal_strlit("NFT_B_Hair_39");
                    assert(spec_entry_clean("NFT_B_Hair_39"@)) by {
                        assert forall|q: int| 0 <= q < "NFT_B_Hair_39"@.len() implies !is_stripped_char(
                            #[trigger] "NFT_B_Hair_39"@[q],
                        ) && "NFT_B_Hair_39"@[q] != ',' by {}
                    }
                } else if i == 1 {
                    reveal_strlit("NFT_B_Hair_41");
                    assert(spec_entry_clean("NFT_B_Hair_41"@)) by {
                        assert forall|q: int| 0 <= q < "NFT_B_Hair_41"@.len() implies !is_stripped_char(
                            #[trigger] "NFT_B_Hair_41"@[q],
                        ) && "NFT_B_Hair_41"@[q] != ',' by {}
                    }
                }
            },
            Rarity::Mythical => {
                if i == 0 {
                    reveal_strlit("NFT_B_Hair_40");
                    assert(spec_entry_clean("NFT_B_Hair_40"@)) by {
                        assert forall|q: int| 0 <= q < "NFT_B_Hair_40"@.len() implies !is_stripped_char(
                            #[trigger] "NFT_B_Hair_40"@[q],
                        ) && "NFT_B_Hair_40"@[q] != ',' by {}
                    }
                } else if i == 1 {
                    reveal_strlit("NFT_B_Hair_42");
                    assert(spec_entry_clean("NFT_B_Hair_42"@)) by {
                        assert forall|q: int| 0 <= q < "NFT_B_Hair_42"@.len() implies !is_stripped_char(
                            #[trigger] "NFT_B_Hair_42"@[q],
                        ) && "NFT_B_Hair_42"@[q] != ',' by {}
                    }
                }
            },
        },
        Gender::Girl => match r {
            Rarity::Common => {
                if i == 0 {
                    reveal_strlit("NFT_G_Hair_17");
                    assert(spec_entry_clean("NFT_G_Hair_17"@)) by {
                        assert forall|q: int| 0 <= q < "NFT_G_Hair_17"@.len() implies !is_stripped_char(
                            #[trigger] "NFT_G_Hair_17"@[q],
                        ) && "NFT_G_Hair_17"@[q] != ',' by {}
                    }
                } else if i == 1 {
                    reveal_strlit("NFT_G_Hair_18");
                    assert(spec_entry_clean("NFT_G_Hair_18"@)) by {
                        assert forall|q: int| 0 <= q < "NFT_G_Hair_18"@.len() implies !is_stripped_char(
                            #[trigger] "NFT_G_Hair_18"@[q],
                        ) && "NFT_G_Hair_18"@[q] != ',' by {}
                    }
                } else if i == 2 {
                    reveal_strlit("NFT_G_Hair_19");
                    assert(spec_entry_clean("NFT_G_Hair_19"@)) by {
                        assert forall|q: int| 0 <= q < "NFT_G_Hair_19"@.len() implies !is_stripped_char(
                            #[trigger] "NFT_G_Hair_19"@[q],
                        ) && "NFT_G_Hair_19"@[q] != ',' by {}
                    }
                } else if i == 3 {
                    reveal_strlit("NFT_G_Hair_20");
                    assert(spec_entry_clean("NFT_G_Hair_20"@)) by {
                        assert forall|q: int| 0 <= q < "NFT_G_Hair_20"@.len() implies !is_stripped_char(
                            #[trigger] "NFT_G_Hair_20"@[q],
                        ) && "NFT_G_Hair_20"@[q] != ',' by {}
                    }
                } else if i == 4 {
                    reveal_strlit("NFT_G_Hair_21");
                    assert(spec_entry_clean("NFT_G_Hair_21"@)) by {
                        assert forall|q: int| 0 <= q < "NFT_G_Hair_21"@.len() implies !is_stripped_char(
                            #[trigger] "NFT_G_Hair_21"@[q],
                        ) && "NFT_G_Hair_21"@[q] != ',' by {}
                    }
                } else if i == 5 {
                    reveal_strlit("NFT_G_Hair_22");
                    assert(spec_entry_clean("NFT_G_Hair_22"@)) by {
                        assert forall|q: int| 0 <= q < "NFT_G_Hair_22"@.len() implies !is_stripped_char(
                            #[trigger] "NFT_G_Hair_22"@[q],
                        ) && "NFT_G_Hair_22"@[q] != ',' by {}
                    }
                } else if i == 6 {
                    reveal_strlit("NFT_G_Hair_23");
                    assert(spec_entry_clean("NFT_G_Hair_23"@)) by {
                        assert forall|q: int| 0 <= q < "NFT_G_Hair_23"@.len() implies !is_stripped_char(
                            #[trigger] "NFT_G_Hair_23"@[q],
                        ) && "NFT_G_Hair_23"@[q] != ',' by {}
                    }
                } else if i == 7 {
                    reveal_strlit("NFT_G_Hair_24");
                    assert(spec_entry_clean("NFT_G_Hair_24"@)) by {
                        assert forall|q: int| 0 <= q < "NFT_G_Hair_24"@.len() implies !is_stripped_char(
                            #[trigger] "NFT_G_Hair_24"@[q],
                        ) && "NFT_G_Hair_24"@[q] != ',' by {}
                    }
                } else if i == 8 {
                    reveal_strlit("NFT_G_Hair_25");
                    assert(spec_entry_clean("NFT_G_Hair_25"@)) by {
                        assert forall|q: int| 0 <= q < "NFT_G_Hair_25"@.len() implies !is_stripped_char(
                            #[trigger] "NFT_G_Hair_25"@[q],
                        ) && "NFT_G_Hair_25"@[q] != ',' by {}
                    }
                } else if i == 9 {
                    reveal_strlit("NFT_G_Hair_26");
                    assert(spec_entry_clean("NFT_G_Hair_26"@)) by {
                        assert forall|q: int| 0 <= q < "NFT_G_Hair_26"@.len() implies !is_stripped_char(
                            #[trigger] "NFT_G_Hair_26"@[q],
                        ) && "NFT_G_Hair_26"@[q] != ',' by {}
                    }
                } else if i == 10 {
                    reveal_strlit("NFT_G_Hair_27");
                    assert(spec_entry_clean("NFT_G_Hair_27"@)) by {
                        assert forall|q: int| 0 <= q < "NFT_G_Hair_27"@.len() implies !is_stripped_char(
                            #[trigger] "NFT_G_Hair_27"@[q],
                        ) && "NFT_G_Hair_27"@[q] != ',' by {}
                    }
                } else if i == 11 {
                    reveal_strlit("NFT_G_Hair_28");
                    assert(spec_entry_clean("NFT_G_Hair_28"@)) by {
                        assert forall|q: int| 0 <= q < "NFT_G_Hair_28"@.len() implies !is_stripped_char(
                            #[trigger] "NFT_G_Hair_28"@[q],
                        ) && "NFT_G_Hair_28"@[q] != ',' by {}
                    }
                } else if i == 12 {
                    reveal_strlit("NFT_G_Hair_29");
                    assert(spec_entry_clean("NFT_G_Hair_29"@)) by {
                        assert forall|q: int| 0 <= q < "NFT_G_Hair_29"@.len() implies !is_stripped_char(
                            #[trigger] "NFT_G_Hair_29"@[q],
                        ) && "NFT_G_Hair_29"@[q] != ',' by {}
                    }
                } else if i == 13 {
                    reveal_strlit("NFT_G_Hair_30");
                    assert(spec_entry_clean("NFT_G_Hair_30"@)) by {
                        assert forall|q: int| 0 <= q < "NFT_G_Hair_30"@.len() implies !is_stripped_char(
                            #[trigger] "NFT_G_Hair_30"@[q],
                        ) && "NFT_G_Hair_30"@[q] != ',' by {}
                    }
                } else if i == 14 {
                    reveal_strlit("NFT_G_Hair_31");
                    assert(spec_entry_clean("NFT_G_Hair_31"@)) by {
                        assert forall|q: int| 0 <= q < "NFT_G_Hair_31"@.len() implies !is_stripped_char(
                            #[trigger] "NFT_G_Hair_31"@[q],
                        ) && "NFT_G_Hair_31"@[q] != ',' by {}
                    }
                }
            },
            Rarity::Uncommon => {
                if i == 0 {
                    reveal_strlit("NFT_G_Hair_4");
                    assert(spec_entry_clean("NFT_G_Hair_4"@)) by {
                        assert forall|q: int| 0 <= q < "NFT_G_Hair_4"@.len() implies !is_stripped_char(
                            #[trigger] "NFT_G_Hair_4"@[q],
                        ) && "NFT_G_Hair_4"@[q] != ',' by {}
                    }
                } else if i == 1 {
                    reveal_strlit("NFT_G_Hair_5");
                    assert(spec_entry_clean("NFT_G_Hair_5"@)) by {
                        assert forall|q: int| 0 <= q < "NFT_G_Hair_5"@.len() implies !is_stripped_char(
                            #[trigger] "NFT_G_Hair_5"@[q],
                        ) && "NFT_G_Hair_5"@[q] != ',' by {}
                    }
                } else if i == 2 {
                    reveal_strlit("NFT_G_Hair_6");
                    assert(spec_entry_clean("NFT_G_Hair_6"@)) by {
                        assert forall|q: int| 0 <= q < "NFT_G_Hair_6"@.len() implies !is_stripped_char(
                            #[trigger] "NFT_G_Hair_6"@[q],
                        ) && "NFT_G_Hair_6"@[q] != ',' by {}
                    }
                } else if i == 3 {
                    reveal_strlit("NFT_G_Hair_7");
                    assert(spec_entry_clean("NFT_G_Hair_7"@)) by {
                        assert forall|q: int| 0 <= q < "NFT_G_Hair_7"@.len() implies !is_stripped_char(
                            #[trigger] "NFT_G_Hair_7"@[q],
                        ) && "NFT_G_Hair_7"@[q] != ',' by {}
                    }
                } else if i == 4 {
                    reveal_strlit("NFT_G_Hair_8");
                    assert(spec_entry_clean("NFT_G_Hair_8"@)) by {
                        assert forall|q: int| 0 <= q < "NFT_G_Hair_8"@.len() implies !is_stripped_char(
                            #[trigger] "NFT_G_Hair_8"@[q],
                        ) && "NFT_G_Hair_8"@[q] != ',' by {}
                    }
                } else if i == 5 {
                    reveal_strlit("NFT_G_Hair_9");
                    assert(spec_entry_clean("NFT_G_Hair_9"@)) by {
                        assert forall|q: int| 0 <= q < "NFT_G_Hair_9"@.len() implies !is_stripped_char(
                            #[trigger] "NFT_G_Hair_9"@[q],
                        ) && "NFT_G_Hair_9"@[q] != ',' by {}
                    }
                } else if i == 6 {
                    reveal_strlit("NFT_G_Hair_10");
                    assert(spec_entry_clean("NFT_G_Hair_10"@)) by {
                        assert forall|q: int| 0 <= q < "NFT_G_Hair_10"@.len() implies !is_stripped_char(
                            #[trigger] "NFT_G_Hair_10"@[q],
                        ) && "NFT_G_Hair_10"@[q] != ',' by {}
                    }
                } else if i == 7 {
                    reveal_strlit("NFT_G_Hair_13");
                    assert(spec_entry_clean("NFT_G_Hair_13"@)) by {
                        assert forall|q: int| 0 <= q < "NFT_G_Hair_13"@.len() implies !is_stripped_char(
                            #[trigger] "NFT_G_Hair_13"@[q],
                        ) && "NFT_G_Hair_13"@[q] != ',' by {}
                    }
                } else if i == 8 {
                    reveal_strlit("NFT_G_Hair_14");
                    assert(spec_entry_clean("NFT_G_Hair_14"@)) by {
                        assert forall|q: int| 0 <= q < "NFT_G_Hair_14"@.len() implies !is_stripped_char(
                            #[trigger] "NFT_G_Hair_14"@[q],
                        ) && "NFT_G_Hair_14"@[q] != ',' by {}
                    }
                } else if i == 9 {
                    reveal_strlit("NFT_G_Hair_15");
                    assert(spec_entry_clean("NFT_G_Hair_15"@)) by {
                        assert forall|q: int| 0 <= q < "NFT_G_Hair_15"@.len() implies !is_stripped_char(
                            #[trigger] "NFT_G_Hair_15"@[q],
                        ) && "NFT_G_Hair_15"@[q] != ',' by {}
                    }
                } else if i == 10 {
                    reveal_strlit("NFT_G_Hair_16");
                    assert(spec_entry_clean("NFT_G_Hair_16"@)) by {
                        assert forall|q: int| 0 <= q < "NFT_G_Hair_16"@.len() implies !is_stripped_char(
                            #[trigger] "NFT_G_Hair_16"@[q],
                        ) && "NFT_G_Hair_16"@[q] != ',' by {}
                    }
                } else if i == 11 {
                    reveal_strlit("NFT_G_Hair_32");
                    assert(spec_entry_clean("NFT_G_Hair_32"@)) by {
                        assert forall|q: int| 0 <= q < "NFT_G_Hair_32"@.len() implies !is_stripped_char(
                            #[trigger] "NFT_G_Hair_32"@[q],
                        ) && "NFT_G_Hair_32"@[q] != ',' by {}
                    }
                } else if i == 12 {
                    reveal_strlit("NFT_G_Hair_33");
                    assert(spec_entry_clean("NFT_G_Hair_33"@)) by {
                        assert forall|q: int| 0 <= q < "NFT_G_Hair_33"@.len() implies !is_stripped_char(
                            #[trigger] "NFT_G_Hair_33"@[q],
                        ) && "NFT_G_Hair_33"@[q] != ',' by {}
                    }
                } else if i == 13 {
                    reveal_strlit("NFT_G_Hair_37");
                    assert(spec_entry_clean("NFT_G_Hair_37"@)) by {
                        assert forall|q: int| 0 <= q < "NFT_G_Hair_37"@.len() implies !is_stripped_char(
                            #[trigger] "NFT_G_Hair_37"@[q],
                        ) && "NFT_G_Hair_37"@[q] != ',' by {}
                    }
                } else if i == 14 {
                    reveal_strlit("NFT_G_Hair_38");
                    assert(spec_entry_clean("NFT_G_Hair_38"@)) by {
                        assert forall|q: int| 0 <= q < "NFT_G_Hair_38"@.len() implies !is_stripped_char(
                            #[trigger] "NFT_G_Hair_38"@[q],
                        ) && "NFT_G_Hair_38"@[q] != ',' by {}
                    }
                } else if i == 15 {
                    reveal_strlit("NFT_G_Hair_39");
                    assert(spec_entry_clean("NFT_G_Hair_39"@)) by {
                        assert forall|q: int| 0 <= q < "NFT_G_Hair_39"@.len() implies !is_stripped_char(
                            #[trigger] "NFT_G_Hair_39"@[q],
                        ) && "NFT_G_Hair_39"@[q] != ',' by {}
                    }
                } else if i == 16 {
                    reveal_strlit("NFT_G_Hair_40");
                    assert(spec_entry_clean("NFT_G_Hair_40"@)) by {
                        assert forall|q: int| 0 <= q < "NFT_G_Hair_40"@.len() implies !is_stripped_char(
                            #[trigger] "NFT_G_Hair_40"@[q],
                        ) && "NFT_G_Hair_40"@[q] != ',' by {}
                    }
                } else if i == 17 {
                    reveal_strlit("NFT_G_Hair_41");
                    assert(spec_entry_clean("NFT_G_Hair_41"@)) by {
                        assert forall|q: int| 0 <= q < "NFT_G_Hair_41"@.len() implies !is_stripped_char(
                            #[trigger] "NFT_G_Hair_41"@[q],
                        ) && "NFT_G_Hair_41"@[q] != ',' by {}
                    }
                } else if i == 18 {
                    reveal_strlit("NFT_G_Hair_42");
                    assert(spec_entry_clean("NFT_G_Hair_42"@)) by {
                        assert forall|q: int| 0 <= q < "NFT_G_Hair_42"@.len() implies !is_stripped_char(
                            #[trigger] "NFT_G_Hair_42"@[q],
                        ) && "NFT_G_Hair_42"@[q] != ',' by {}
                    }
                }
            },
            Rarity::Rare => {
                if i == 0 {
                    reveal_strlit("NFT_G_Hair_34");
                    assert(spec_entry_clean("NFT_G_Hair_34"@)) by {
                        assert forall|q: int| 0 <= q < "NFT_G_Hair_34"@.len() implies !is_stripped_char(
                            #[trigger] "NFT_G_Hair_34"@[q],
                        ) && "NFT_G_Hair_34"@[q] != ',' by {}
                    }
                } else if i == 1 {
                    reveal_strlit("NFT_G_Hair_35");
                    assert(spec_entry_clean("NFT_G_Hair_35"@)) by {
                        assert forall|q: int| 0 <= q < "NFT_G_Hair_35"@.len() implies !is_stripped_char(
                            #[trigger] "NFT_G_Hair_35"@[q],
                        ) && "NFT_G_Hair_35"@[q] != ',' by {}
                    }
                } else if i == 2 {
                    reveal_strlit("NFT_G_Hair_36");
                    assert(spec_entry_clean("NFT_G_Hair_36"@)) by {
                        assert forall|q: int| 0 <= q < "NFT_G_Hair_36"@.len() implies !is_stripped_char(
                            #[trigger] "NFT_G_Hair_36"@[q],
                        ) && "NFT_G_Hair_36"@[q] != ',' by {}
                    }
                }
            },
            Rarity::Epic => {
                if i == 0 {
                    reveal_strlit("NFT_G_Hair_1");
                    assert(spec_entry_clean("NFT_G_Hair_1"@)) by {
                        assert forall|q: int| 0 <= q < "NFT_G_Hair_1"@.len() implies !is_stripped_char(
                            #[trigger] "NFT_G_Hair_1"@[q],
                        ) && "NFT_G_Hair_1"@[q] != ',' by {}
                    }
                } else if i == 1 {
                    reveal_strlit("NFT_G_Hair_2");
                    assert(spec_entry_clean("NFT_G_Hair_2"@)) by {
                        assert forall|q: int| 0 <= q < "NFT_G_Hair_2"@.len() implies !is_stripped_char(
                            #[trigger] "NFT_G_Hair_2"@[q],
                        ) && "NFT_G_Hair_2"@[q] != ',' by {}
                    }
                } else if i == 2 {
                    reveal_strlit("NFT_G_Hair_3");
                    assert(spec_entry_clean("NFT_G_Hair_3"@)) by {
                        assert forall|q: int| 0 <= q < "NFT_G_Hair_3"@.len() implies !is_stripped_char(
                            #[trigger] "NFT_G_Hair_3"@[q],
                        ) && "NFT_G_Hair_3"@[q] != ',' by {}
                    }
                } else if i == 3 {
                    reveal_strlit("NFT_G_Hair_11");
                    assert(spec_entry_clean("NFT_G_Hair_11"@)) by {
                        assert forall|q: int| 0 <= q < "NFT_G_Hair_11"@.len() implies !is_stripped_char(
                            #[trigger] "NFT_G_Hair_11"@[q],
                        ) && "NFT_G_Hair_11"@[q] != ',' by {}
                    }
                } else if i == 4 {
                    reveal_strlit("NFT_G_Hair_12");
                    assert(spec_entry_clean("NFT_G_Hair_12"@)) by {
                        assert forall|q: int| 0 <= q < "NFT_G_Hair_12"@.len() implies !is_stripped_char(
                            #[trigger] "NFT_G_Hair_12"@[q],
                        ) && "NFT_G_Hair_12"@[q] != ',' by {}
                    }
                }
            },
            Rarity::Legendary => {
                if i == 0 {
                    reveal_strlit("NFT_G_Hair_43");
                    assert(spec_entry_clean("NFT_G_Hair_43"@)) by {
                        assert forall|q: int| 0 <= q < "NFT_G_Hair_43"@.len() implies !is_stripped_char(
                            #[trigger] "NFT_G_Hair_43"@[q],
                        ) && "NFT_G_Hair_43"@[q] != ',' by {}
                    }
                } else if i == 1 {
                    reveal_strlit("NFT_G_Hair_45");
                    assert(spec_entry_clean("NFT_G_Hair_45"@)) by {
                        assert forall|q: int| 0 <= q < "NFT_G_Hair_45"@.len() implies !is_stripped_char(
                            #[trigger] "NFT_G_Hair_45"@[q],
                        ) && "NFT_G_Hair_45"@[q] != ',' by {}
                    }
                }
            },
            Rarity::Mythical => {
                if i == 0 {
                    reveal_strlit("NFT_G_Hair_44");
                    assert(spec_entry_clean("NFT_G_Hair_44"@)) by {
                        assert forall|q: int| 0 <= q < "NFT_G_Hair_44"@.len() implies !is_stripped_char(
                            #[trigger] "NFT_G_Hair_44"@[q],
                        ) && "NFT_G_Hair_44"@[q] != ',' by {}
                    }
                } else if i == 1 {
                    reveal_strlit("NFT_G_Hair_46");
                    assert(spec_entry_clean("NFT_G_Hair_46"@)) by {
                        assert forall|q: int| 0 <= q < "NFT_G_Hair_46"@.len() implies !is_stripped_char(
                            #[trigger] "NFT_G_Hair_46"@[q],
                        ) && "NFT_G_Hair_46"@[q] != ',' by {}
                    }
                }
            },
        },
    }
}

proof fn lemma_head_phone_clean(r: Rarity, i: int)
    requires
        0 <= i < spec_head_phone(r).len(),
    ensures
        spec_entry_clean(spec_head_phone(r)[i]),
{
    match r {
        Rarity::Common => {
        },
        Rarity::Uncommon => {
            if i == 0 {
                reveal_strlit("NFT_Head_Phone_1");
                assert(spec_entry_clean("NFT_Head_Phone_1"@)) by {
                    assert forall|q: int| 0 <= q < "NFT_Head_Phone_1"@.len() implies !is_stripped_char(
                        #[trigger] "NFT_Head_Phone_1"@[q],
                    ) && "NFT_Head_Phone_1"@[q] != ',' by {}
                }
            }
        },
        Rarity::Rare => {
            if i == 0 {
                reveal_strlit("NFT_Head_Phone_2");
                assert(spec_entry_clean("NFT_Head_Phone_2"@)) by {
                    assert forall|q: int| 0 <= q < "NFT_Head_Phone_2"@.len() implies !is_stripped_char(
                        #[trigger] "NFT_Head_Phone_2"@[q],
                    ) && "NFT_Head_Phone_2"@[q] != ',' by {}
                }
            }
        },
        Rarity::Epic => {
            if i == 0 {
                reveal_strlit("NFT_Head_Phone_3");
                assert(spec_entry_clean("NFT_Head_Phone_3"@)) by {
                    assert forall|q: int| 0 <= q < "NFT_Head_Phone_3"@.len() implies !is_stripped_char(
                        #[trigger] "NFT_Head_Phone_3"@[q],
                    ) && "NFT_Head_Phone_3"@[q] != ',' by {}
                }
            }
        },
        Rarity::Legendary => {
            if i == 0 {
                reveal_strlit("NFT_Head_Phone_4");
                assert(spec_entry_clean("NFT_Head_Phone_4"@)) by {
                    assert forall|q: int| 0 <= q < "NFT_Head_Phone_4"@.len() implies !is_stripped_char(
                        #[trigger] "NFT_Head_Phone_4"@[q],
                    ) && "NFT_Head_Phone_4"@[q] != ',' by {}
                }
            }
        },
        Rarity::Mythical => {
            if i == 0 {
                reveal_strlit("NFT_Head_Phone_5");
                assert(spec_entry_clean("NFT_Head_Phone_5"@)) by {
                    assert forall|q: int| 0 <= q < "NFT_Head_Phone_5"@.len() implies !is_stripped_char(
                        #[trigger] "NFT_Head_Phone_5"@[q],
                    ) && "NFT_Head_Phone_5"@[q] != ',' by {}
                }
            }
        },
    }
}

/// Every identifier of every catalog cell is clean of the decoration
/// characters of the log format.
pub proof fn lemma_variants_clean(g: Gender, c: TraitCategory, r: Rarity, i: int)
    requires
        0 <= i < spec_variants(g, c, r).len(),
    ensures
        spec_entry_clean(spec_variants(g, c, r)[i]),
{
    match c {
        TraitCategory::Background => lemma_background_clean(r, i),
        TraitCategory::Hand => lemma_hand_clean(r, i),
        TraitCategory::HairLong => lemma_hair_long_clean(g, r, i),
        TraitCategory::Body => lemma_body_clean(r, i),
        TraitCategory::Clothes => lemma_clothes_clean(g, r, i),
        TraitCategory::Face => lemma_face_clean(g, r, i),
        TraitCategory::FaceAcc => lemma_face_acc_clean(r, i),
        TraitCategory::Hair => lemma_hair_clean(g, r, i),
        TraitCategory::HeadPhone => lemma_head_phone_clean(r, i),
    }
}


/// Every element of the flattened entry list is the value of some present
/// slot.
pub(crate) proof fn lemma_entries_membership(slots: Seq<Option<Seq<char>>>, j: int)
    requires
        0 <= j < spec_entries(slots).len(),
    ensures
        exists|i: int|
            0 <= i < slots.len() && #[trigger] slots[i] == Option::Some(spec_entries(slots)[j]),
    decreases slots.len(),
{
    let rest = slots.drop_first();
    match slots[0] {
        Option::Some(v) => {
            if j == 0 {
                assert(spec_entries(slots)[0] == v);
                assert(slots[0] == Option::Some(spec_entries(slots)[0]));
            } else {
                assert(spec_entries(slots)[j] == spec_entries(rest)[j - 1]);
                lemma_entries_membership(rest, j - 1);
                let i = choose|i: int|
                    0 <= i < rest.len() && #[trigger] rest[i] == Option::Some(
                        spec_entries(rest)[j - 1],
                    );
                assert(slots[i + 1] == rest[i]);
            }
        },
        Option::None => {
            lemma_entries_membership(rest, j);
            let i = choose|i: int|
                0 <= i < rest.len() && #[trigger] rest[i] == Option::Some(spec_entries(rest)[j]);
            assert(slots[i + 1] == rest[i]);
        },
    }
}

/// A catalog identifier is clean.
proof fn lemma_from_catalog_clean(g: Gender, c: TraitCategory, t: Seq<char>)
    requires
        spec_from_catalog(g, c, t),
    ensures
        spec_entry_clean(t),
{
    let (r, i): (Rarity, int) = choose|r: Rarity, i: int|
        0 <= i < spec_variants(g, c, r).len() && t == #[trigger] spec_variants(g, c, r)[i];
    lemma_variants_clean(g, c, r, i);
}

/// Every entry of a well-formed manifest is clean of the log format's
/// decoration characters: the sampled entries are catalog identifiers, and
/// the derived Hair entry equals the Hair catalog identifier at the sampled
/// HairLong position.
pub proof fn lemma_wf_entries_clean(m: Manifest, g: Gender, j: int)
    requires
        m.wf(g),
        0 <= j < spec_entries(slot_views(m.slots@)).len(),
    ensures
        spec_entry_clean(spec_entries(slot_views(m.slots@))[j]),
{
    let slots = slot_views(m.slots@);
    let t = spec_entries(slots)[j];
    lemma_entries_membership(slots, j);
    let i = choose|i: int| 0 <= i < slots.len() && #[trigger] slots[i] == Option::Some(t);
    if i == TraitCategory::Background.spec_index() {
        assert(m.slot(TraitCategory::Background) == Option::Some(t));
        lemma_from_catalog_clean(g, TraitCategory::Background, t);
    } else if i == TraitCategory::Hand.spec_index() {
        assert(m.slot(TraitCategory::Hand) == Option::Some(t));
        lemma_from_catalog_clean(g, TraitCategory::Hand, t);
    } else if i == TraitCategory::HairLong.spec_index() {
        assert(m.slot(TraitCategory::HairLong) == Option::Some(t));
        lemma_from_catalog_clean(g, TraitCategory::HairLong, t);
    } else if i == TraitCategory::Body.spec_index() {
        assert(m.slot(TraitCategory::Body) == Option::Some(t));
        lemma_from_catalog_clean(g, TraitCategory::Body, t);
    } else if i == TraitCategory::Clothes.spec_index() {
        assert(m.slot(TraitCategory::Clothes) == Option::Some(t));
        lemma_from_catalog_clean(g, TraitCategory::Clothes, t);
    } else if i == TraitCategory::Face.spec_index() {
        assert(m.slot(TraitCategory::Face) == Option::Some(t));
        lemma_from_catalog_clean(g, TraitCategory::Face, t);
    } else if i == TraitCategory::FaceAcc.spec_index() {
        assert(m.slot(TraitCategory::FaceAcc) == Option::Some(t));
        lemma_from_catalog_clean(g, TraitCategory::FaceAcc, t);
    } else if i == TraitCategory::Hair.spec_index() {
        assert(m.slot(TraitCategory::Hair) == Option::Some(t));
        let hl = m.slot(TraitCategory::HairLong)->Some_0;
        assert(m.slot(TraitCategory::HairLong) is Some);
        assert(spec_from_catalog(g, TraitCategory::HairLong, hl));
        let (r, k): (Rarity, int) = choose|r: Rarity, k: int|
            0 <= k < spec_variants(g, TraitCategory::HairLong, r).len() && hl
                == #[trigger] spec_variants(g, TraitCategory::HairLong, r)[k];
        lemma_derive_hair_catalog(g, r, k);
        assert(t == spec_variants(g, TraitCategory::Hair, r)[k]);
        lemma_variants_clean(g, TraitCategory::Hair, r, k);
    } else {
        assert(i == TraitCategory::HeadPhone.spec_index());
        assert(m.slot(TraitCategory::HeadPhone) == Option::Some(t));
        lemma_from_catalog_clean(g, TraitCategory::HeadPhone, t);
    }
}

/// The log round-trips every generated manifest: the line written for a
/// well-formed manifest's entry list is accepted by the checked parse and
/// parses back to exactly that list.
pub proof fn lemma_manifest_log_round_trip(m: Manifest, g: Gender, index: nat)
    requires
        m.wf(g),
    ensures
        ({
            let es = spec_entries(slot_views(m.slots@));
            &&& spec_line_wf(spec_format_line(index, es))
            &&& spec_parse_line(spec_format_line(index, es)) == es
        }),
{
    lemma_format_line_wf(index, spec_entries(slot_views(m.slots@)));
    let slots = slot_views(m.slots@);
    let es = spec_entries(slots);
    assert(m.slot(TraitCategory::Hand) is Some);
    lemma_entry_at(slots, TraitCategory::Hand.spec_index());
    assert(es.len() >= 1);
    assert forall|k: int| 0 <= k < es.len() implies spec_entry_clean(#[trigger] es[k]) by {
        lemma_wf_entries_clean(m, g, k);
    }
    lemma_line_round_trip(index, es);
}

} // verus!

