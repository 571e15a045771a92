use metronion::emotion::{expand_emotions, find_clothes, should_expand, strip_face};
use metronion::kinds::Gender;
use metronion::manifest::generate_one;
use metronion::store::{format_line, parse_line, parse_line_checked};

fn strings(items: &[&str]) -> Vec<String> {
    items.iter().map(|s| s.to_string()).collect()
}

#[test]
fn format_line_matches_log_layout() {
    let entries = strings(&["NFT_BG_1", "NFT_Hand_2"]);
    assert_eq!(format_line(1, &entries), "1,[\"NFT_BG_1\", \"NFT_Hand_2\"]");
    let one = strings(&["NFT_Body_4"]);
    assert_eq!(format_line(42, &one), "42,[\"NFT_Body_4\"]");
}

#[test]
fn parse_line_recovers_entries() {
    let parts = parse_line("3,[\"NFT_BG_1\", \"NFT_Hand_2\", \"NFT_B_Hair_Long_5\"]");
    assert_eq!(parts, strings(&["NFT_BG_1", "NFT_Hand_2", "NFT_B_Hair_Long_5"]));
}

#[test]
fn round_trip_three_records() {
    for (index, entries) in [
        (1, strings(&["NFT_BG_1", "NFT_Hand_2"])),
        (250, strings(&["NFT_B_Hair_Long_11"])),
        (5000, strings(&["NFT_Hand_1", "NFT_B_Clothes_3", "NFT_B_Face_9", "NFT_Head_Phone_2"])),
    ] {
        let line = format_line(index, &entries);
        assert_eq!(parse_line(&line), entries);
    }
}

#[test]
fn parse_line_of_empty_list_keeps_one_empty_field() {
    // A log line with no entries parses to a single empty field, exactly as
    // the comma split of the stripped line leaves it.
    assert_eq!(parse_line("1,[]"), strings(&[""]));
}

#[test]
fn round_trip_of_generated_manifests() {
    for gender in [Gender::Boy, Gender::Girl] {
        for i in 0..50usize {
            let entries = generate_one(gender).expect("generation failed").entries();
            let line = format_line(i + 1, &entries);
            assert_eq!(parse_line(&line), entries);
        }
    }
}

#[test]
fn checked_parse_accepts_written_lines() {
    let entries = strings(&["NFT_BG_1", "NFT_Hand_2"]);
    let line = format_line(7, &entries);
    assert_eq!(parse_line_checked(&line), Some(entries));
    // Any written line is accepted, whatever the entries hold.
    for gender in [Gender::Boy, Gender::Girl] {
        let entries = generate_one(gender).expect("generation failed").entries();
        let line = format_line(1, &entries);
        assert_eq!(parse_line_checked(&line), Some(entries));
    }
}

#[test]
fn checked_parse_refuses_malformed_lines() {
    // No digit index field.
    assert_eq!(parse_line_checked(""), None);
    assert_eq!(parse_line_checked(",[\"a\"]"), None);
    assert_eq!(parse_line_checked("x,[\"a\"]"), None);
    // Digits but no comma.
    assert_eq!(parse_line_checked("123"), None);
    assert_eq!(parse_line_checked("12]"), None);
    // No opening bracket after the comma.
    assert_eq!(parse_line_checked("1,\"a\"]"), None);
    assert_eq!(parse_line_checked("1,"), None);
    // No closing bracket at the end.
    assert_eq!(parse_line_checked("1,[\"a\""), None);
    assert_eq!(parse_line_checked("1,["), None);
}

#[test]
fn strip_face_keeps_the_clothes_anchor() {
    for gender in [Gender::Boy, Gender::Girl] {
        for _ in 0..50 {
            let entries = generate_one(gender).expect("generation failed").entries();
            let kept = strip_face(&entries);
            // Exactly the Face-marked entries are gone.
            assert!(kept.iter().all(|e| !e.contains("Face")));
            assert_eq!(
                entries.iter().filter(|e| e.contains("Face")).count(),
                entries.len() - kept.len()
            );
            // The Clothes entry survives and is found by the expansion's search.
            let k = find_clothes(&kept).expect("missing Clothes anchor");
            assert!(kept[k].contains("Clothes"));
            assert_eq!(expand_emotions(&kept).len(), 10);
        }
    }
}

#[test]
fn strip_face_removes_face_and_face_acc() {
    let parts = strings(&["NFT_BG_1", "NFT_B_Face_3", "NFT_Face_Acc_2", "NFT_B_Clothes_1"]);
    assert_eq!(strip_face(&parts), strings(&["NFT_BG_1", "NFT_B_Clothes_1"]));
}

#[test]
fn should_expand_skips_one_past_resume_index() {
    assert!(!should_expand(0, 0));
    assert!(should_expand(1, 0));
    assert!(!should_expand(5, 5));
    assert!(should_expand(6, 5));
}

#[test]
fn expansion_inserts_each_emotion_after_clothes() {
    let parts = strings(&["NFT_BG_1", "NFT_Hand_2", "NFT_B_Clothes_3", "NFT_B_Hair_4"]);
    assert_eq!(find_clothes(&parts), Some(2));
    let expanded = expand_emotions(&parts);
    assert_eq!(expanded.len(), 10);
    for (j, one) in expanded.iter().enumerate() {
        let expected_name = format!("NFT_Emo_{}", j + 1);
        assert_eq!(one.len(), 5);
        assert_eq!(one[0], "NFT_BG_1");
        assert_eq!(one[1], "NFT_Hand_2");
        assert_eq!(one[2], "NFT_B_Clothes_3");
        assert_eq!(one[3], expected_name);
        assert_eq!(one[4], "NFT_B_Hair_4");
    }
    // The ten inserted identifiers are pairwise distinct.
    for a in 0..10 {
        for b in 0..10 {
            if a != b {
                assert_ne!(expanded[a][3], expanded[b][3]);
            }
        }
    }
}

#[test]
fn expansion_of_manifest_without_clothes_is_empty() {
    let parts = strings(&["NFT_BG_1", "NFT_Hand_2"]);
    assert_eq!(find_clothes(&parts), None);
    assert!(expand_emotions(&parts).is_empty());
}
