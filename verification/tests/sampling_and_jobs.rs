use metronion::catalog::variants_of;
use metronion::jobs::{emotion_output_name, layer_file_names, output_name, BatchReport};
use metronion::kinds::{Gender, Rarity, TraitCategory};
use metronion::manifest::{generate_batch, generate_one};
use metronion::sample::{pick_uniform, sample_rarity};

#[test]
fn catalog_cells_match_fixed_data() {
    let bg = variants_of(Gender::Boy, TraitCategory::Background, Rarity::Common);
    assert_eq!(bg, vec!["NFT_BG_1", "NFT_BG_2", "NFT_BG_3", "NFT_BG_4"]);
    // Background yields no layer on the uncommon tier.
    assert!(variants_of(Gender::Girl, TraitCategory::Background, Rarity::Uncommon).is_empty());
    assert!(variants_of(Gender::Boy, TraitCategory::FaceAcc, Rarity::Common).is_empty());
    assert_eq!(
        variants_of(Gender::Girl, TraitCategory::HairLong, Rarity::Mythical),
        vec!["NFT_G_Hair_Long_44", "NFT_G_Hair_Long_46"]
    );
    // Mandatory categories have candidates on the common tier.
    for c in [
        TraitCategory::Hand,
        TraitCategory::HairLong,
        TraitCategory::Clothes,
        TraitCategory::Face,
    ] {
        assert!(!variants_of(Gender::Boy, c, Rarity::Common).is_empty());
        assert!(!variants_of(Gender::Girl, c, Rarity::Common).is_empty());
    }
}

#[test]
fn pick_uniform_singleton_returns_the_element() {
    let choices = vec!["only"];
    assert_eq!(pick_uniform(&choices), "only");
}

#[test]
fn pick_uniform_stays_in_the_list() {
    let choices = vec!["a", "b", "c"];
    for _ in 0..200 {
        let got = pick_uniform(&choices);
        assert!(choices.contains(&got));
    }
}

#[test]
fn rarity_sample_frequencies() {
    // 200,000 draws; each tier frequency within one percentage point of its
    // probability.
    let total = 200_000i64;
    let mut counts = [0i64; 6];
    for _ in 0..total {
        let idx = match sample_rarity() {
            Rarity::Common => 0,
            Rarity::Uncommon => 1,
            Rarity::Rare => 2,
            Rarity::Epic => 3,
            Rarity::Legendary => 4,
            Rarity::Mythical => 5,
        };
        counts[idx] += 1;
    }
    let expected = [100_000i64, 60_000, 20_000, 12_000, 6_000, 2_000];
    let tolerance = total / 100;
    for k in 0..6 {
        assert!(
            (counts[k] - expected[k]).abs() <= tolerance,
            "tier {} count {} expected {}",
            k,
            counts[k],
            expected[k]
        );
    }
}

fn entry_of(entries: &[String], marker: &str) -> Option<usize> {
    entries.iter().position(|e| e.contains(marker))
}

#[test]
fn generated_manifests_keep_order_and_honour_gates() {
    for gender in [Gender::Boy, Gender::Girl] {
        for _ in 0..200 {
            let m = generate_one(gender).expect("generation failed");
            let entries = m.entries();
            // Mandatory categories always present.
            let hand = entry_of(&entries, "Hand").expect("missing Hand");
            let hair_long = entry_of(&entries, "Hair_Long").expect("missing HairLong");
            let clothes = entry_of(&entries, "Clothes").expect("missing Clothes");
            let face = entry_of(&entries, "_Face").expect("missing Face");
            // Category order preserved in the flattened manifest.
            assert!(hand < hair_long);
            assert!(hair_long < clothes);
            assert!(clothes < face);
            // Hair is derived from HairLong.
            let hair_long_name = &entries[hair_long];
            let derived = metronion::rules::derive_hair(hair_long_name);
            assert!(entries.contains(&derived), "derived {} absent", derived);
            // Gates: a disallowed HairLong variant forces the layer absent.
            if !metronion::rules::allows_headphone(gender, hair_long_name) {
                assert!(entry_of(&entries, "Head_Phone").is_none());
            }
            if !metronion::rules::allows_face_acc(gender, hair_long_name) {
                assert!(entry_of(&entries, "Face_Acc").is_none());
            }
            // No category contributes twice.
            assert!(entries.len() <= 9);
        }
    }
}

#[test]
fn batch_has_requested_size() {
    let ms = generate_batch(Gender::Girl, 25).expect("generation failed");
    assert_eq!(ms.len(), 25);
}

#[test]
fn job_file_names() {
    assert_eq!(output_name(7), "7.png");
    assert_eq!(output_name(5000), "5000.png");
    assert_eq!(emotion_output_name(12, "NFT_Emo_3"), "12_NFT_Emo_3.png");
    let layers = layer_file_names(&vec!["NFT_BG_1".to_string(), "NFT_Hand_2".to_string()]);
    assert_eq!(layers, vec!["NFT_BG_1.png", "NFT_Hand_2.png"]);
}

#[test]
fn batch_report_aggregates_outcomes() {
    let outcomes = vec![(0usize, true), (1, false), (2, true), (3, false), (4, false)];
    let report = BatchReport::from_outcomes(&outcomes);
    assert_eq!(report.succeeded, 2);
    assert_eq!(report.failed, vec![1, 3, 4]);
    let clean = BatchReport::from_outcomes(&vec![(0usize, true)]);
    assert_eq!(clean.succeeded, 1);
    assert!(clean.failed.is_empty());
}
