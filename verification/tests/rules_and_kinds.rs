use metronion::kinds::{category_order, gender_of_dir, mapping_file_name, Gender, Rarity, TraitCategory};
use metronion::rules::{allows_face_acc, allows_headphone, derive_hair};
use metronion::strutil::{split_at_first, split_on_char, str_contains, str_eq};

#[test]
fn string_equality_and_search() {
    assert!(str_eq("NFT_B_Hair_Long_2", "NFT_B_Hair_Long_2"));
    assert!(!str_eq("NFT_B_Hair_Long_2", "NFT_B_Hair_Long_20"));
    assert!(str_contains("NFT_B_Hair_Long_2", "Hair_Long"));
    assert!(!str_contains("NFT_B_Hair_2", "Hair_Long"));
    assert!(str_contains("anything", ""));
}

#[test]
fn split_on_char_keeps_empty_runs() {
    let parts = split_on_char("a_b__c", '_');
    assert_eq!(parts, vec!["a", "b", "", "c"]);
    assert_eq!(split_on_char("", '_'), vec![""]);
    assert_eq!(split_on_char("abc", '_'), vec!["abc"]);
}

#[test]
fn split_at_first_occurrence() {
    assert_eq!(split_at_first("a=b=c", "="), ("a", "b=c"));
    assert_eq!(split_at_first("no-match", "="), ("no-match", ""));
    assert_eq!(split_at_first("x--y", "--"), ("x", "y"));
}

#[test]
fn gender_from_directory_name() {
    assert!(matches!(gender_of_dir("NFT_B_assets"), Gender::Boy));
    assert!(matches!(gender_of_dir("NFT_G_assets"), Gender::Girl));
    assert!(matches!(gender_of_dir("somewhere/NFT_B_assets"), Gender::Boy));
    assert!(matches!(gender_of_dir("plain"), Gender::Girl));
}

#[test]
fn gender_names_and_log_file() {
    assert_eq!(Gender::Boy.name(), "boy");
    assert_eq!(Gender::Girl.name(), "girl");
    assert_eq!(mapping_file_name(Gender::Boy), "mapping_boy.txt");
    assert_eq!(mapping_file_name(Gender::Girl), "mapping_girl.txt");
}

#[test]
fn category_order_is_fixed() {
    let order = category_order();
    assert_eq!(order.len(), 9);
    assert!(matches!(order[0], TraitCategory::Background));
    assert!(matches!(order[1], TraitCategory::Hand));
    assert!(matches!(order[2], TraitCategory::HairLong));
    assert!(matches!(order[3], TraitCategory::Body));
    assert!(matches!(order[4], TraitCategory::Clothes));
    assert!(matches!(order[5], TraitCategory::Face));
    assert!(matches!(order[6], TraitCategory::FaceAcc));
    assert!(matches!(order[7], TraitCategory::Hair));
    assert!(matches!(order[8], TraitCategory::HeadPhone));
}

#[test]
fn rarity_weights() {
    assert_eq!(Rarity::Common.weight(), 50);
    assert_eq!(Rarity::Uncommon.weight(), 30);
    assert_eq!(Rarity::Rare.weight(), 10);
    assert_eq!(Rarity::Epic.weight(), 6);
    assert_eq!(Rarity::Legendary.weight(), 3);
    assert_eq!(Rarity::Mythical.weight(), 1);
    let total: u64 = Rarity::all().iter().map(|r| r.weight()).sum();
    assert_eq!(total, 100);
}

#[test]
fn derive_hair_removes_second_to_last_token() {
    assert_eq!(derive_hair("NFT_B_Hair_Long_2"), "NFT_B_Hair_2");
    assert_eq!(derive_hair("NFT_G_Hair_Long_46"), "NFT_G_Hair_46");
    assert_eq!(derive_hair("a_b"), "b");
    assert_eq!(derive_hair("x_y_z"), "x_z");
}

#[test]
fn headphone_gate_boy_scenario() {
    // NFT_B_Hair_Long_2 is in the Boy disallowed-headphone set.
    assert!(!allows_headphone(Gender::Boy, "NFT_B_Hair_Long_2"));
    assert_eq!(derive_hair("NFT_B_Hair_Long_2"), "NFT_B_Hair_2");
    // A variant outside the set keeps the headphone draw.
    assert!(allows_headphone(Gender::Boy, "NFT_B_Hair_Long_11"));
}

#[test]
fn face_acc_gate_boy_scenario() {
    // NFT_B_Hair_Long_32 disallows FaceAcc but not HeadPhone.
    assert!(!allows_face_acc(Gender::Boy, "NFT_B_Hair_Long_32"));
    assert!(allows_headphone(Gender::Boy, "NFT_B_Hair_Long_32"));
    assert!(!allows_face_acc(Gender::Boy, "NFT_B_Hair_Long_33"));
    assert!(!allows_face_acc(Gender::Boy, "NFT_B_Hair_Long_34"));
}

#[test]
fn face_acc_always_allowed_for_girl() {
    assert!(allows_face_acc(Gender::Girl, "NFT_G_Hair_Long_4"));
    assert!(allows_face_acc(Gender::Girl, "NFT_B_Hair_Long_32"));
}

#[test]
fn headphone_gate_girl() {
    assert!(!allows_headphone(Gender::Girl, "NFT_G_Hair_Long_4"));
    assert!(!allows_headphone(Gender::Girl, "NFT_G_Hair_Long_16"));
    assert!(allows_headphone(Gender::Girl, "NFT_G_Hair_Long_17"));
}
