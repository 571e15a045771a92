//! The trait catalog: for each (gender, category, rarity tier) the set of
//! candidate variant identifiers, fixed data mirrored exactly by the spec
//! functions the sampling contracts are stated over.

use vstd::prelude::*;

use crate::kinds::{Gender, Rarity, TraitCategory};

verus! {

/// The views of the strings in a borrowed-string list, in order.
pub open spec fn str_views(v: Seq<&str>) -> Seq<Seq<char>> {
    v.map_values(|s: &str| s@)
}

pub open spec fn spec_background(r: Rarity) -> Seq<Seq<char>> {
    match r {
        Rarity::Common => seq!["NFT_BG_1"@, "NFT_BG_2"@, "NFT_BG_3"@, "NFT_BG_4"@],
        Rarity::Uncommon => Seq::<Seq<char>>::empty(),
        Rarity::Rare => seq!["NFT_BG_5"@, "NFT_BG_6"@],
        Rarity::Epic => seq!["NFT_BG_7"@, "NFT_BG_9"@, "NFT_BG_10"@],
        Rarity::Legendary => seq!["NFT_BG_12"@],
        Rarity::Mythical => seq!["NFT_BG_8"@, "NFT_BG_11"@],
    }
}

pub fn background_variants(r: Rarity) -> (v: Vec<&'static str>)
    ensures
        str_views(v@) == spec_background(r),
{
    let mut v: Vec<&'static str> = Vec::new();
    match r {
        Rarity::Common => {
            v.push("NFT_BG_1");
            v.push("NFT_BG_2");
            v.push("NFT_BG_3");
            v.push("NFT_BG_4");
        },
        Rarity::Uncommon => {
        },
        Rarity::Rare => {
            v.push("NFT_BG_5");
            v.push("NFT_BG_6");
        },
        Rarity::Epic => {
            v.push("NFT_BG_7");
            v.push("NFT_BG_9");
            v.push("NFT_BG_10");
        },
        Rarity::Legendary => {
            v.push("NFT_BG_12");
        },
        Rarity::Mythical => {
            v.push("NFT_BG_8");
            v.push("NFT_BG_11");
        },
    }
    proof {
        assert(str_views(v@) =~= spec_background(r));
    }
    v
}

pub open spec fn spec_hand(r: Rarity) -> Seq<Seq<char>> {
    match r {
        Rarity::Common => seq!["NFT_Hand_1"@, "NFT_Hand_2"@],
        Rarity::Uncommon => seq!["NFT_Hand_3"@, "NFT_Hand_4"@],
        Rarity::Rare => seq!["NFT_Hand_5"@, "NFT_Hand_6"@],
        Rarity::Epic => seq!["NFT_Hand_7"@, "NFT_Hand_8"@],
        Rarity::Legendary => seq!["NFT_Hand_9"@, "NFT_Hand_10"@, "NFT_Hand_11"@],
        Rarity::Mythical => seq!["NFT_Hand_12"@, "NFT_Hand_13"@],
    }
}

pub fn hand_variants(r: Rarity) -> (v: Vec<&'static str>)
    ensures
        str_views(v@) == spec_hand(r),
{
    let mut v: Vec<&'static str> = Vec::new();
    match r {
        Rarity::Common => {
            v.push("NFT_Hand_1");
            v.push("NFT_Hand_2");
        },
        Rarity::Uncommon => {
            v.push("NFT_Hand_3");
            v.push("NFT_Hand_4");
        },
        Rarity::Rare => {
            v.push("NFT_Hand_5");
            v.push("NFT_Hand_6");
        },
        Rarity::Epic => {
            v.push("NFT_Hand_7");
            v.push("NFT_Hand_8");
        },
        Rarity::Legendary => {
            v.push("NFT_Hand_9");
            v.push("NFT_Hand_10");
            v.push("NFT_Hand_11");
        },
        Rarity::Mythical => {
            v.push("NFT_Hand_12");
            v.push("NFT_Hand_13");
        },
    }
    proof {
        assert(str_views(v@) =~= spec_hand(r));
    }
    v
}

pub open spec fn spec_hair_long(g: Gender, r: Rarity) -> Seq<Seq<char>> {
    match g {
        Gender::Boy => match r {
            Rarity::Common => seq!["NFT_B_Hair_Long_11"@, "NFT_B_Hair_Long_12"@, "NFT_B_Hair_Long_13"@, "NFT_B_Hair_Long_14"@, "NFT_B_Hair_Long_15"@, "NFT_B_Hair_Long_16"@, "NFT_B_Hair_Long_17"@, "NFT_B_Hair_Long_18"@, "NFT_B_Hair_Long_19"@, "NFT_B_Hair_Long_20"@, "NFT_B_Hair_Long_21"@, "NFT_B_Hair_Long_22"@, "NFT_B_Hair_Long_23"@, "NFT_B_Hair_Long_24"@, "NFT_B_Hair_Long_25"@, "NFT_B_Hair_Long_26"@, "NFT_B_Hair_Long_27"@, "NFT_B_Hair_Long_28"@, "NFT_B_Hair_Long_29"@, "NFT_B_Hair_Long_30"@, "NFT_B_Hair_Long_31"@],
            Rarity::Uncommon => seq!["NFT_B_Hair_Long_2"@, "NFT_B_Hair_Long_3"@, "NFT_B_Hair_Long_4"@, "NFT_B_Hair_Long_7"@, "NFT_B_Hair_Long_8"@, "NFT_B_Hair_Long_9"@, "NFT_B_Hair_Long_10"@],
            Rarity::Rare => seq!["NFT_B_Hair_Long_32"@, "NFT_B_Hair_Long_33"@, "NFT_B_Hair_Long_34"@, "NFT_B_Hair_Long_35"@, "NFT_B_Hair_Long_36"@, "NFT_B_Hair_Long_37"@, "NFT_B_Hair_Long_38"@],
            Rarity::Epic => seq!["NFT_B_Hair_Long_1"@, "NFT_B_Hair_Long_5"@, "NFT_B_Hair_Long_6"@],
            Rarity::Legendary => seq!["NFT_B_Hair_Long_39"@, "NFT_B_Hair_Long_41"@],
            Rarity::Mythical => seq!["NFT_B_Hair_Long_40"@, "NFT_B_Hair_Long_42"@],
        },
        Gender::Girl => match r {
            Rarity::Common => seq!["NFT_G_Hair_Long_17"@, "NFT_G_Hair_Long_18"@, "NFT_G_Hair_Long_19"@, "NFT_G_Hair_Long_20"@, "NFT_G_Hair_Long_21"@, "NFT_G_Hair_Long_22"@, "NFT_G_Hair_Long_23"@, "NFT_G_Hair_Long_24"@, "NFT_G_Hair_Long_25"@, "NFT_G_Hair_Long_26"@, "NFT_G_Hair_Long_27"@, "NFT_G_Hair_Long_28"@, "NFT_G_Hair_Long_29"@, "NFT_G_Hair_Long_30"@, "NFT_G_Hair_Long_31"@],
            Rarity::Uncommon => seq!["NFT_G_Hair_Long_4"@, "NFT_G_Hair_Long_5"@, "NFT_G_Hair_Long_6"@, "NFT_G_Hair_Long_7"@, "NFT_G_Hair_Long_8"@, "NFT_G_Hair_Long_9"@, "NFT_G_Hair_Long_10"@, "NFT_G_Hair_Long_13"@, "NFT_G_Hair_Long_14"@, "NFT_G_Hair_Long_15"@, "NFT_G_Hair_Long_16"@, "NFT_G_Hair_Long_32"@, "NFT_G_Hair_Long_33"@, "NFT_G_Hair_Long_37"@, "NFT_G_Hair_Long_38"@, "NFT_G_Hair_Long_39"@, "NFT_G_Hair_Long_40"@, "NFT_G_Hair_Long_41"@, "NFT_G_Hair_Long_42"@],
            Rarity::Rare => seq!["NFT_G_Hair_Long_34"@, "NFT_G_Hair_Long_35"@, "NFT_G_Hair_Long_36"@],
            Rarity::Epic => seq!["NFT_G_Hair_Long_1"@, "NFT_G_Hair_Long_2"@, "NFT_G_Hair_Long_3"@, "NFT_G_Hair_Long_11"@, "NFT_G_Hair_Long_12"@],
            Rarity::Legendary => seq!["NFT_G_Hair_Long_43"@, "NFT_G_Hair_Long_45"@],
            Rarity::Mythical => seq!["NFT_G_Hair_Long_44"@, "NFT_G_Hair_Long_46"@],
        },
    }
}

pub fn hair_long_variants(g: Gender, r: Rarity) -> (v: Vec<&'static str>)
    ensures
        str_views(v@) == spec_hair_long(g, r),
{
    let mut v: Vec<&'static str> = Vec::new();
    match g {
        Gender::Boy => match r {
            Rarity::Common => {
                v.push("NFT_B_Hair_Long_11");
                v.push("NFT_B_Hair_Long_12");
                v.push("NFT_B_Hair_Long_13");
                v.push("NFT_B_Hair_Long_14");
                v.push("NFT_B_Hair_Long_15");
                v.push("NFT_B_Hair_Long_16");
                v.push("NFT_B_Hair_Long_17");
                v.push("NFT_B_Hair_Long_18");
                v.push("NFT_B_Hair_Long_19");
                v.push("NFT_B_Hair_Long_20");
                v.push("NFT_B_Hair_Long_21");
                v.push("NFT_B_Hair_Long_22");
                v.push("NFT_B_Hair_Long_23");
                v.push("NFT_B_Hair_Long_24");
                v.push("NFT_B_Hair_Long_25");
                v.push("NFT_B_Hair_Long_26");
                v.push("NFT_B_Hair_Long_27");
                v.push("NFT_B_Hair_Long_28");
                v.push("NFT_B_Hair_Long_29");
                v.push("NFT_B_Hair_Long_30");
                v.push("NFT_B_Hair_Long_31");
            },
            Rarity::Uncommon => {
                v.push("NFT_B_Hair_Long_2");
                v.push("NFT_B_Hair_Long_3");
                v.push("NFT_B_Hair_Long_4");
                v.push("NFT_B_Hair_Long_7");
                v.push("NFT_B_Hair_Long_8");
                v.push("NFT_B_Hair_Long_9");
                v.push("NFT_B_Hair_Long_10");
            },
            Rarity::Rare => {
                v.push("NFT_B_Hair_Long_32");
                v.push("NFT_B_Hair_Long_33");
                v.push("NFT_B_Hair_Long_34");
                v.push("NFT_B_Hair_Long_35");
                v.push("NFT_B_Hair_Long_36");
                v.push("NFT_B_Hair_Long_37");
                v.push("NFT_B_Hair_Long_38");
            },
            Rarity::Epic => {
                v.push("NFT_B_Hair_Long_1");
                v.push("NFT_B_Hair_Long_5");
                v.push("NFT_B_Hair_Long_6");
            },
            Rarity::Legendary => {
                v.push("NFT_B_Hair_Long_39");
                v.push("NFT_B_Hair_Long_41");
            },
            Rarity::Mythical => {
                v.push("NFT_B_Hair_Long_40");
                v.push("NFT_B_Hair_Long_42");
            },
        },
        Gender::Girl => match r {
            Rarity::Common => {
                v.push("NFT_G_Hair_Long_17");
                v.push("NFT_G_Hair_Long_18");
                v.push("NFT_G_Hair_Long_19");
                v.push("NFT_G_Hair_Long_20");
                v.push("NFT_G_Hair_Long_21");
                v.push("NFT_G_Hair_Long_22");
                v.push("NFT_G_Hair_Long_23");
                v.push("NFT_G_Hair_Long_24");
                v.push("NFT_G_Hair_Long_25");
                v.push("NFT_G_Hair_Long_26");
                v.push("NFT_G_Hair_Long_27");
                v.push("NFT_G_Hair_Long_28");
                v.push("NFT_G_Hair_Long_29");
                v.push("NFT_G_Hair_Long_30");
                v.push("NFT_G_Hair_Long_31");
            },
            Rarity::Uncommon => {
                v.push("NFT_G_Hair_Long_4");
                v.push("NFT_G_Hair_Long_5");
                v.push("NFT_G_Hair_Long_6");
                v.push("NFT_G_Hair_Long_7");
                v.push("NFT_G_Hair_Long_8");
                v.push("NFT_G_Hair_Long_9");
                v.push("NFT_G_Hair_Long_10");
                v.push("NFT_G_Hair_Long_13");
                v.push("NFT_G_Hair_Long_14");
                v.push("NFT_G_Hair_Long_15");
                v.push("NFT_G_Hair_Long_16");
                v.push("NFT_G_Hair_Long_32");
                v.push("NFT_G_Hair_Long_33");
                v.push("NFT_G_Hair_Long_37");
                v.push("NFT_G_Hair_Long_38");
                v.push("NFT_G_Hair_Long_39");
                v.push("NFT_G_Hair_Long_40");
                v.push("NFT_G_Hair_Long_41");
                v.push("NFT_G_Hair_Long_42");
            },
            Rarity::Rare => {
                v.push("NFT_G_Hair_Long_34");
                v.push("NFT_G_Hair_Long_35");
                v.push("NFT_G_Hair_Long_36");
            },
            Rarity::Epic => {
                v.push("NFT_G_Hair_Long_1");
                v.push("NFT_G_Hair_Long_2");
                v.push("NFT_G_Hair_Long_3");
                v.push("NFT_G_Hair_Long_11");
                v.push("NFT_G_Hair_Long_12");
            },
            Rarity::Legendary => {
                v.push("NFT_G_Hair_Long_43");
                v.push("NFT_G_Hair_Long_45");
            },
            Rarity::Mythical => {
                v.push("NFT_G_Hair_Long_44");
                v.push("NFT_G_Hair_Long_46");
            },
        },
    }
    proof {
        assert(str_views(v@) =~= spec_hair_long(g, r));
    }
    v
}

pub open spec fn spec_body(r: Rarity) -> Seq<Seq<char>> {
    match r {
        Rarity::Common => seq!["NFT_Body_1"@, "NFT_Body_2"@, "NFT_Body_3"@],
        Rarity::Uncommon => Seq::<Seq<char>>::empty(),
        Rarity::Rare => Seq::<Seq<char>>::empty(),
        Rarity::Epic => seq!["NFT_Body_4"@],
        Rarity::Legendary => Seq::<Seq<char>>::empty(),
        Rarity::Mythical => Seq::<Seq<char>>::empty(),
    }
}

pub fn body_variants(r: Rarity) -> (v: Vec<&'static str>)
    ensures
        str_views(v@) == spec_body(r),
{
    let mut v: Vec<&'static str> = Vec::new();
    match r {
        Rarity::Common => {
            v.push("NFT_Body_1");
            v.push("NFT_Body_2");
            v.push("NFT_Body_3");
        },
        Rarity::Uncommon => {
        },
        Rarity::Rare => {
        },
        Rarity::Epic => {
            v.push("NFT_Body_4");
        },
        Rarity::Legendary => {
        },
        Rarity::Mythical => {
        },
    }
    proof {
        assert(str_views(v@) =~= spec_body(r));
    }
    v
}

pub open spec fn spec_clothes(g: Gender, r: Rarity) -> Seq<Seq<char>> {
    match g {
        Gender::Boy => match r {
            Rarity::Common => seq!["NFT_B_Clothes_1"@, "NFT_B_Clothes_2"@, "NFT_B_Clothes_3"@, "NFT_B_Clothes_4"@, "NFT_B_Clothes_5"@, "NFT_B_Clothes_6"@],
            Rarity::Uncommon => seq!["NFT_B_Clothes_7"@, "NFT_B_Clothes_8"@, "NFT_B_Clothes_9"@],
            Rarity::Rare => seq!["NFT_B_Clothes_10"@, "NFT_B_Clothes_12"@, "NFT_B_Clothes_17"@],
            Rarity::Epic => seq!["NFT_B_Clothes_11"@, "NFT_B_Clothes_13"@, "NFT_B_Clothes_14"@, "NFT_B_Clothes_15"@, "NFT_B_Clothes_16"@],
            Rarity::Legendary => seq!["NFT_B_Clothes_18"@, "NFT_B_Clothes_19"@],
            Rarity::Mythical => seq!["NFT_B_Clothes_20"@, "NFT_B_Clothes_21"@],
        },
        Gender::Girl => match r {
            Rarity::Common => seq!["NFT_G_Clothes_1"@, "NFT_G_Clothes_2"@, "NFT_G_Clothes_3"@, "NFT_G_Clothes_4"@, "NFT_G_Clothes_5"@, "NFT_G_Clothes_6"@],
            Rarity::Uncommon => seq!["NFT_G_Clothes_7"@, "NFT_G_Clothes_8"@, "NFT_G_Clothes_12"@, "NFT_G_Clothes_13"@, "NFT_G_Clothes_14"@],
            Rarity::Rare => seq!["NFT_G_Clothes_9"@, "NFT_G_Clothes_10"@],
            Rarity::Epic => seq!["NFT_G_Clothes_11"@, "NFT_G_Clothes_15"@, "NFT_G_Clothes_16"@, "NFT_G_Clothes_17"@],
            Rarity::Legendary => seq!["NFT_G_Clothes_18"@, "NFT_G_Clothes_19"@],
            Rarity::Mythical => seq!["NFT_G_Clothes_20"@, "NFT_G_Clothes_21"@],
        },
    }
}

pub fn clothes_variants(g: Gender, r: Rarity) -> (v: Vec<&'static str>)
    ensures
        str_views(v@) == spec_clothes(g, r),
{
    let mut v: Vec<&'static str> = Vec::new();
    match g {
        Gender::Boy => match r {
            Rarity::Common => {
                v.push("NFT_B_Clothes_1");
                v.push("NFT_B_Clothes_2");
                v.push("NFT_B_Clothes_3");
                v.push("NFT_B_Clothes_4");
                v.push("NFT_B_Clothes_5");
                v.push("NFT_B_Clothes_6");
            },
            Rarity::Uncommon => {
                v.push("NFT_B_Clothes_7");
                v.push("NFT_B_Clothes_8");
                v.push("NFT_B_Clothes_9");
            },
            Rarity::Rare => {
                v.push("NFT_B_Clothes_10");
                v.push("NFT_B_Clothes_12");
                v.push("NFT_B_Clothes_17");
            },
            Rarity::Epic => {
                v.push("NFT_B_Clothes_11");
                v.push("NFT_B_Clothes_13");
                v.push("NFT_B_Clothes_14");
                v.push("NFT_B_Clothes_15");
                v.push("NFT_B_Clothes_16");
            },
            Rarity::Legendary => {
                v.push("NFT_B_Clothes_18");
                v.push("NFT_B_Clothes_19");
            },
            Rarity::Mythical => {
                v.push("NFT_B_Clothes_20");
                v.push("NFT_B_Clothes_21");
            },
        },
        Gender::Girl => match r {
            Rarity::Common => {
                v.push("NFT_G_Clothes_1");
                v.push("NFT_G_Clothes_2");
                v.push("NFT_G_Clothes_3");
                v.push("NFT_G_Clothes_4");
                v.push("NFT_G_Clothes_5");
                v.push("NFT_G_Clothes_6");
            },
            Rarity::Uncommon => {
                v.push("NFT_G_Clothes_7");
                v.push("NFT_G_Clothes_8");
                v.push("NFT_G_Clothes_12");
                v.push("NFT_G_Clothes_13");
                v.push("NFT_G_Clothes_14");
            },
            Rarity::Rare => {
                v.push("NFT_G_Clothes_9");
                v.push("NFT_G_Clothes_10");
            },
            Rarity::Epic => {
                v.push("NFT_G_Clothes_11");
                v.push("NFT_G_Clothes_15");
                v.push("NFT_G_Clothes_16");
                v.push("NFT_G_Clothes_17");
            },
            Rarity::Legendary => {
                v.push("NFT_G_Clothes_18");
                v.push("NFT_G_Clothes_19");
            },
            Rarity::Mythical => {
                v.push("NFT_G_Clothes_20");
                v.push("NFT_G_Clothes_21");
            },
        },
    }
    proof {
        assert(str_views(v@) =~= spec_clothes(g, r));
    }
    v
}

pub open spec fn spec_face(g: Gender, r: Rarity) -> Seq<Seq<char>> {
    match g {
        Gender::Boy => match r {
            Rarity::Common => seq!["NFT_B_Face_1"@, "NFT_B_Face_2"@, "NFT_B_Face_3"@, "NFT_B_Face_4"@, "NFT_B_Face_13"@, "NFT_B_Face_14"@],
            Rarity::Uncommon => seq!["NFT_B_Face_5"@, "NFT_B_Face_6"@, "NFT_B_Face_7"@, "NFT_B_Face_8"@, "NFT_B_Face_15"@],
            Rarity::Rare => seq!["NFT_B_Face_9"@, "NFT_B_Face_10"@, "NFT_B_Face_11"@, "NFT_B_Face_12"@],
            Rarity::Epic => seq!["NFT_B_Face_16"@, "NFT_B_Face_17"@, "NFT_B_Face_18"@, "NFT_B_Face_19"@, "NFT_B_Face_23"@, "NFT_B_Face_24"@],
            Rarity::Legendary => seq!["NFT_B_Face_20"@, "NFT_B_Face_21"@, "NFT_B_Face_22"@, "NFT_B_Face_25"@, "NFT_B_Face_27"@],
            Rarity::Mythical => seq!["NFT_B_Face_26"@, "NFT_B_Face_28"@],
        },
        Gender::Girl => match r {
            Rarity::Common => seq!["NFT_G_Face_6"@, "NFT_G_Face_7"@, "NFT_G_Face_8"@, "NFT_G_Face_9"@, "NFT_G_Face_14"@],
            Rarity::Uncommon => seq!["NFT_G_Face_1"@, "NFT_G_Face_2"@, "NFT_G_Face_3"@, "NFT_G_Face_4"@, "NFT_G_Face_5"@],
            Rarity::Rare => seq!["NFT_G_Face_10"@, "NFT_G_Face_11"@, "NFT_G_Face_12"@, "NFT_G_Face_13"@],
            Rarity::Epic => seq!["NFT_G_Face_15"@, "NFT_G_Face_16"@, "NFT_G_Face_17"@],
            Rarity::Legendary => seq!["NFT_G_Face_18"@, "NFT_G_Face_19"@, "NFT_G_Face_21"@, "NFT_G_Face_22"@],
            Rarity::Mythical => seq!["NFT_G_Face_20"@, "NFT_G_Face_23"@],
        },
    }
}

pub fn face_variants(g: Gender, r: Rarity) -> (v: Vec<&'static str>)
    ensures
        str_views(v@) == spec_face(g, r),
{
    let mut v: Vec<&'static str> = Vec::new();
    match g {
        Gender::Boy => match r {
            Rarity::Common => {
                v.push("NFT_B_Face_1");
                v.push("NFT_B_Face_2");
                v.push("NFT_B_Face_3");
                v.push("NFT_B_Face_4");
                v.push("NFT_B_Face_13");
                v.push("NFT_B_Face_14");
            },
            Rarity::Uncommon => {
                v.push("NFT_B_Face_5");
                v.push("NFT_B_Face_6");
                v.push("NFT_B_Face_7");
                v.push("NFT_B_Face_8");
                v.push("NFT_B_Face_15");
            },
            Rarity::Rare => {
                v.push("NFT_B_Face_9");
                v.push("NFT_B_Face_10");
                v.push("NFT_B_Face_11");
                v.push("NFT_B_Face_12");
            },
            Rarity::Epic => {
                v.push("NFT_B_Face_16");
                v.push("NFT_B_Face_17");
                v.push("NFT_B_Face_18");
                v.push("NFT_B_Face_19");
                v.push("NFT_B_Face_23");
                v.push("NFT_B_Face_24");
            },
            Rarity::Legendary => {
                v.push("NFT_B_Face_20");
                v.push("NFT_B_Face_21");
                v.push("NFT_B_Face_22");
                v.push("NFT_B_Face_25");
                v.push("NFT_B_Face_27");
            },
            Rarity::Mythical => {
                v.push("NFT_B_Face_26");
                v.push("NFT_B_Face_28");
            },
        },
        Gender::Girl => match r {
            Rarity::Common => {
                v.push("NFT_G_Face_6");
                v.push("NFT_G_Face_7");
                v.push("NFT_G_Face_8");
                v.push("NFT_G_Face_9");
                v.push("NFT_G_Face_14");
            },
            Rarity::Uncommon => {
                v.push("NFT_G_Face_1");
                v.push("NFT_G_Face_2");
                v.push("NFT_G_Face_3");
                v.push("NFT_G_Face_4");
                v.push("NFT_G_Face_5");
            },
            Rarity::Rare => {
                v.push("NFT_G_Face_10");
                v.push("NFT_G_Face_11");
                v.push("NFT_G_Face_12");
                v.push("NFT_G_Face_13");
            },
            Rarity::Epic => {
                v.push("NFT_G_Face_15");
                v.push("NFT_G_Face_16");
                v.push("NFT_G_Face_17");
            },
            Rarity::Legendary => {
                v.push("NFT_G_Face_18");
                v.push("NFT_G_Face_19");
                v.push("NFT_G_Face_21");
                v.push("NFT_G_Face_22");
            },
            Rarity::Mythical => {
                v.push("NFT_G_Face_20");
                v.push("NFT_G_Face_23");
            },
        },
    }
    proof {
        assert(str_views(v@) =~= spec_face(g, r));
    }
    v
}

pub open spec fn spec_face_acc(r: Rarity) -> Seq<Seq<char>> {
    match r {
        Rarity::Common => Seq::<Seq<char>>::empty(),
        Rarity::Uncommon => seq!["NFT_Face_Acc_1"@, "NFT_Face_Acc_2"@],
        Rarity::Rare => seq!["NFT_Face_Acc_5"@, "NFT_Face_Acc_6"@],
        Rarity::Epic => seq!["NFT_Face_Acc_3"@, "NFT_Face_Acc_4"@],
        Rarity::Legendary => seq!["NFT_Face_Acc_7"@, "NFT_Face_Acc_8"@],
        Rarity::Mythical => seq!["NFT_Face_Acc_9"@],
    }
}

pub fn face_acc_variants(r: Rarity) -> (v: Vec<&'static str>)
    ensures
        str_views(v@) == spec_face_acc(r),
{
    let mut v: Vec<&'static str> = Vec::new();
    match r {
        Rarity::Common => {
        },
        Rarity::Uncommon => {
            v.push("NFT_Face_Acc_1");
            v.push("NFT_Face_Acc_2");
        },
        Rarity::Rare => {
            v.push("NFT_Face_Acc_5");
            v.push("NFT_Face_Acc_6");
        },
        Rarity::Epic => {
            v.push("NFT_Face_Acc_3");
            v.push("NFT_Face_Acc_4");
        },
        Rarity::Legendary => {
            v.push("NFT_Face_Acc_7");
            v.push("NFT_Face_Acc_8");
        },
        Rarity::Mythical => {
            v.push("NFT_Face_Acc_9");
        },
    }
    proof {
        assert(str_views(v@) =~= spec_face_acc(r));
    }
    v
}

pub open spec fn spec_hair(g: Gender, r: Rarity) -> Seq<Seq<char>> {
    match g {
        Gender::Boy => match r {
            Rarity::Common => seq!["NFT_B_Hair_11"@, "NFT_B_Hair_12"@, "NFT_B_Hair_13"@, "NFT_B_Hair_14"@, "NFT_B_Hair_15"@, "NFT_B_Hair_16"@, "NFT_B_Hair_17"@, "NFT_B_Hair_18"@, "NFT_B_Hair_19"@, "NFT_B_Hair_20"@, "NFT_B_Hair_21"@, "NFT_B_Hair_22"@, "NFT_B_Hair_23"@, "NFT_B_Hair_24"@, "NFT_B_Hair_25"@, "NFT_B_Hair_26"@, "NFT_B_Hair_27"@, "NFT_B_Hair_28"@, "NFT_B_Hair_29"@, "NFT_B_Hair_30"@, "NFT_B_Hair_31"@],
            Rarity::Uncommon => seq!["NFT_B_Hair_2"@, "NFT_B_Hair_3"@, "NFT_B_Hair_4"@, "NFT_B_Hair_7"@, "NFT_B_Hair_8"@, "NFT_B_Hair_9"@, "NFT_B_Hair_10"@],
            Rarity::Rare => seq!["NFT_B_Hair_32"@, "NFT_B_Hair_33"@, "NFT_B_Hair_34"@, "NFT_B_Hair_35"@, "NFT_B_Hair_36"@, "NFT_B_Hair_37"@, "NFT_B_Hair_38"@],
            Rarity::Epic => seq!["NFT_B_Hair_1"@, "NFT_B_Hair_5"@, "NFT_B_Hair_6"@],
            Rarity::Legendary => seq!["NFT_B_Hair_39"@, "NFT_B_Hair_41"@],
            Rarity::Mythical => seq!["NFT_B_Hair_40"@, "NFT_B_Hair_42"@],
        },
        Gender::Girl => match r {
            Rarity::Common => seq!["NFT_G_Hair_17"@, "NFT_G_Hair_18"@, "NFT_G_Hair_19"@, "NFT_G_Hair_20"@, "NFT_G_Hair_21"@, "NFT_G_Hair_22"@, "NFT_G_Hair_23"@, "NFT_G_Hair_24"@, "NFT_G_Hair_25"@, "NFT_G_Hair_26"@, "NFT_G_Hair_27"@, "NFT_G_Hair_28"@, "NFT_G_Hair_29"@, "NFT_G_Hair_30"@, "NFT_G_Hair_31"@],
            Rarity::Uncommon => seq!["NFT_G_Hair_4"@, "NFT_G_Hair_5"@, "NFT_G_Hair_6"@, "NFT_G_Hair_7"@, "NFT_G_Hair_8"@, "NFT_G_Hair_9"@, "NFT_G_Hair_10"@, "NFT_G_Hair_13"@, "NFT_G_Hair_14"@, "NFT_G_Hair_15"@, "NFT_G_Hair_16"@, "NFT_G_Hair_32"@, "NFT_G_Hair_33"@, "NFT_G_Hair_37"@, "NFT_G_Hair_38"@, "NFT_G_Hair_39"@, "NFT_G_Hair_40"@, "NFT_G_Hair_41"@, "NFT_G_Hair_42"@],
            Rarity::Rare => seq!["NFT_G_Hair_34"@, "NFT_G_Hair_35"@, "NFT_G_Hair_36"@],
            Rarity::Epic => seq!["NFT_G_Hair_1"@, "NFT_G_Hair_2"@, "NFT_G_Hair_3"@, "NFT_G_Hair_11"@, "NFT_G_Hair_12"@],
            Rarity::Legendary => seq!["NFT_G_Hair_43"@, "NFT_G_Hair_45"@],
            Rarity::Mythical => seq!["NFT_G_Hair_44"@, "NFT_G_Hair_46"@],
        },
    }
}

pub fn hair_variants(g: Gender, r: Rarity) -> (v: Vec<&'static str>)
    ensures
        str_views(v@) == spec_hair(g, r),
{
    let mut v: Vec<&'static str> = Vec::new();
    match g {
        Gender::Boy => match r {
            Rarity::Common => {
                v.push("NFT_B_Hair_11");
                v.push("NFT_B_Hair_12");
                v.push("NFT_B_Hair_13");
                v.push("NFT_B_Hair_14");
                v.push("NFT_B_Hair_15");
                v.push("NFT_B_Hair_16");
                v.push("NFT_B_Hair_17");
                v.push("NFT_B_Hair_18");
                v.push("NFT_B_Hair_19");
                v.push("NFT_B_Hair_20");
                v.push("NFT_B_Hair_21");
                v.push("NFT_B_Hair_22");
                v.push("NFT_B_Hair_23");
                v.push("NFT_B_Hair_24");
                v.push("NFT_B_Hair_25");
                v.push("NFT_B_Hair_26");
                v.push("NFT_B_Hair_27");
                v.push("NFT_B_Hair_28");
                v.push("NFT_B_Hair_29");
                v.push("NFT_B_Hair_30");
                v.push("NFT_B_Hair_31");
            },
            Rarity::Uncommon => {
                v.push("NFT_B_Hair_2");
                v.push("NFT_B_Hair_3");
                v.push("NFT_B_Hair_4");
                v.push("NFT_B_Hair_7");
                v.push("NFT_B_Hair_8");
                v.push("NFT_B_Hair_9");
                v.push("NFT_B_Hair_10");
            },
            Rarity::Rare => {
                v.push("NFT_B_Hair_32");
                v.push("NFT_B_Hair_33");
                v.push("NFT_B_Hair_34");
                v.push("NFT_B_Hair_35");
                v.push("NFT_B_Hair_36");
                v.push("NFT_B_Hair_37");
                v.push("NFT_B_Hair_38");
            },
            Rarity::Epic => {
                v.push("NFT_B_Hair_1");
                v.push("NFT_B_Hair_5");
                v.push("NFT_B_Hair_6");
            },
            Rarity::Legendary => {
                v.push("NFT_B_Hair_39");
                v.push("NFT_B_Hair_41");
            },
            Rarity::Mythical => {
                v.push("NFT_B_Hair_40");
                v.push("NFT_B_Hair_42");
            },
        },
        Gender::Girl => match r {
            Rarity::Common => {
                v.push("NFT_G_Hair_17");
                v.push("NFT_G_Hair_18");
                v.push("NFT_G_Hair_19");
                v.push("NFT_G_Hair_20");
                v.push("NFT_G_Hair_21");
                v.push("NFT_G_Hair_22");
                v.push("NFT_G_Hair_23");
                v.push("NFT_G_Hair_24");
                v.push("NFT_G_Hair_25");
                v.push("NFT_G_Hair_26");
                v.push("NFT_G_Hair_27");
                v.push("NFT_G_Hair_28");
                v.push("NFT_G_Hair_29");
                v.push("NFT_G_Hair_30");
                v.push("NFT_G_Hair_31");
            },
            Rarity::Uncommon => {
                v.push("NFT_G_Hair_4");
                v.push("NFT_G_Hair_5");
                v.push("NFT_G_Hair_6");
                v.push("NFT_G_Hair_7");
                v.push("NFT_G_Hair_8");
                v.push("NFT_G_Hair_9");
                v.push("NFT_G_Hair_10");
                v.push("NFT_G_Hair_13");
                v.push("NFT_G_Hair_14");
                v.push("NFT_G_Hair_15");
                v.push("NFT_G_Hair_16");
                v.push("NFT_G_Hair_32");
                v.push("NFT_G_Hair_33");
                v.push("NFT_G_Hair_37");
                v.push("NFT_G_Hair_38");
                v.push("NFT_G_Hair_39");
                v.push("NFT_G_Hair_40");
                v.push("NFT_G_Hair_41");
                v.push("NFT_G_Hair_42");
            },
            Rarity::Rare => {
                v.push("NFT_G_Hair_34");
                v.push("NFT_G_Hair_35");
                v.push("NFT_G_Hair_36");
            },
            Rarity::Epic => {
                v.push("NFT_G_Hair_1");
                v.push("NFT_G_Hair_2");
                v.push("NFT_G_Hair_3");
                v.push("NFT_G_Hair_11");
                v.push("NFT_G_Hair_12");
            },
            Rarity::Legendary => {
                v.push("NFT_G_Hair_43");
                v.push("NFT_G_Hair_45");
            },
            Rarity::Mythical => {
                v.push("NFT_G_Hair_44");
                v.push("NFT_G_Hair_46");
            },
        },
    }
    proof {
        assert(str_views(v@) =~= spec_hair(g, r));
    }
    v
}

pub open spec fn spec_head_phone(r: Rarity) -> Seq<Seq<char>> {
    match r {
        Rarity::Common => Seq::<Seq<char>>::empty(),
        Rarity::Uncommon => seq!["NFT_Head_Phone_1"@],
        Rarity::Rare => seq!["NFT_Head_Phone_2"@],
        Rarity::Epic => seq!["NFT_Head_Phone_3"@],
        Rarity::Legendary => seq!["NFT_Head_Phone_4"@],
        Rarity::Mythical => seq!["NFT_Head_Phone_5"@],
    }
}

pub fn head_phone_variants(r: Rarity) -> (v: Vec<&'static str>)
    ensures
        str_views(v@) == spec_head_phone(r),
{
    let mut v: Vec<&'static str> = Vec::new();
    match r {
        Rarity::Common => {
        },
        Rarity::Uncommon => {
            v.push("NFT_Head_Phone_1");
        },
        Rarity::Rare => {
            v.push("NFT_Head_Phone_2");
        },
        Rarity::Epic => {
            v.push("NFT_Head_Phone_3");
        },
        Rarity::Legendary => {
            v.push("NFT_Head_Phone_4");
        },
        Rarity::Mythical => {
            v.push("NFT_Head_Phone_5");
        },
    }
    proof {
        assert(str_views(v@) =~= spec_head_phone(r));
    }
    v
}

/// The candidate variants of one (gender, category, rarity) cell.
pub open spec fn spec_variants(g: Gender, c: TraitCategory, r: Rarity) -> Seq<Seq<char>> {
    match c {
        TraitCategory::Background => spec_background(r),
        TraitCategory::Hand => spec_hand(r),
        TraitCategory::HairLong => spec_hair_long(g, r),
        TraitCategory::Body => spec_body(r),
        TraitCategory::Clothes => spec_clothes(g, r),
        TraitCategory::Face => spec_face(g, r),
        TraitCategory::FaceAcc => spec_face_acc(r),
        TraitCategory::Hair => spec_hair(g, r),
        TraitCategory::HeadPhone => spec_head_phone(r),
    }
}

/// Looks one catalog cell up; an empty result means the tier yields no
/// layer for the category.
pub fn variants_of(g: Gender, c: TraitCategory, r: Rarity) -> (v: Vec<&'static str>)
    ensures
        str_views(v@) == spec_variants(g, c, r),
{
    match c {
        TraitCategory::Background => background_variants(r),
        TraitCategory::Hand => hand_variants(r),
        TraitCategory::HairLong => hair_long_variants(g, r),
        TraitCategory::Body => body_variants(r),
        TraitCategory::Clothes => clothes_variants(g, r),
        TraitCategory::Face => face_variants(g, r),
        TraitCategory::FaceAcc => face_acc_variants(r),
        TraitCategory::Hair => hair_variants(g, r),
        TraitCategory::HeadPhone => head_phone_variants(r),
    }
}

/// The catalog invariant behind mandatory-category resolution: every
/// mandatory category has a rarity tier with candidates, for either gender,
/// so resampling can succeed.  In this catalog the invariant holds in its
/// strongest form: every tier of every mandatory category has candidates,
/// so a mandatory draw succeeds on the first tier it lands on.
pub proof fn lemma_mandatory_tier_nonempty(g: Gender, c: TraitCategory)
    requires
        c.spec_mandatory(),
    ensures
        spec_variants(g, c, Rarity::Common).len() > 0,
        forall|r: Rarity| (#[trigger] spec_variants(g, c, r)).len() > 0,
{
    assert forall|r: Rarity| (#[trigger] spec_variants(g, c, r)).len() > 0 by {
        match r {
            Rarity::Common => {},
            Rarity::Uncommon => {},
            Rarity::Rare => {},
            Rarity::Epic => {},
            Rarity::Legendary => {},
            Rarity::Mythical => {},
        }
    }
}

} // verus!
