use summary_simulator::sampling::{
    barcode_for_draws, barcode_label, generate_barcode_arrangement, generate_read_id,
    mean_qscore_from_draw, passes_filtering, sequence_length_from_draw,
};

#[test]
fn split_boundaries_are_exact() {
    assert_eq!(barcode_for_draws(0, 1, "dom"), "dom");
    assert_eq!(barcode_for_draws(849_999_999, 1, "dom"), "dom");
    assert_eq!(barcode_for_draws(850_000_000, 1, "dom"), "unclassified");
    assert_eq!(barcode_for_draws(949_999_999, 1, "dom"), "unclassified");
    assert_eq!(barcode_for_draws(950_000_000, 1, "dom"), "-");
    assert_eq!(barcode_for_draws(954_999_999, 1, "dom"), "-");
    assert_eq!(barcode_for_draws(955_000_000, 42, "dom"), "barcode42");
    assert_eq!(barcode_for_draws(999_999_999, 96, "dom"), "barcode96");
}

#[test]
fn length_clamps_to_floor() {
    assert_eq!(sequence_length_from_draw(0), 20);
    assert_eq!(sequence_length_from_draw(19), 20);
    assert_eq!(sequence_length_from_draw(20), 20);
}

#[test]
fn length_clamps_to_ceiling() {
    assert_eq!(sequence_length_from_draw(4_000_001), 4_000_000);
    assert_eq!(sequence_length_from_draw(u64::MAX), 4_000_000);
    assert_eq!(sequence_length_from_draw(4_000_000), 4_000_000);
}

#[test]
fn length_in_range_passes_through() {
    assert_eq!(sequence_length_from_draw(12345), 12345);
    assert_eq!(sequence_length_from_draw(10_000), 10_000);
}

#[test]
fn qscore_at_centre_is_unchanged() {
    assert_eq!(mean_qscore_from_draw(18_049_912_521_373), 18_049_912_521_373);
}

#[test]
fn qscore_low_draw_clamps_to_minimum() {
    assert_eq!(mean_qscore_from_draw(0), 1_800_000_000_000);
    assert_eq!(mean_qscore_from_draw(i64::MIN), 1_800_000_000_000);
}

#[test]
fn qscore_high_draw_clamps_to_maximum() {
    assert_eq!(mean_qscore_from_draw(60_000_000_000_000), 40_877_296_000_000);
    assert_eq!(mean_qscore_from_draw(i64::MAX), 40_877_296_000_000);
}

#[test]
fn qscore_above_centre_stretches_by_six_fifths() {
    // deviation of +2.0 units becomes +4.4 units
    assert_eq!(
        mean_qscore_from_draw(20_049_912_521_373),
        22_449_912_521_373
    );
}

#[test]
fn qscore_below_centre_stretches_by_twenty_seven_tenths() {
    // deviation of -1.0 unit becomes -3.7 units
    assert_eq!(
        mean_qscore_from_draw(17_049_912_521_373),
        14_349_912_521_373
    );
}

#[test]
fn qscore_bounds_hold_for_many_draws() {
    let mut draw: i64 = -5_000_000_000_000;
    while draw < 45_000_000_000_000 {
        let q = mean_qscore_from_draw(draw);
        assert!(q >= 1_800_000_000_000);
        assert!(q <= 40_877_296_000_000);
        draw += 137_000_000_000;
    }
}

#[test]
fn filtering_compares_score_and_threshold() {
    assert!(passes_filtering(10_000_000_000_000, 10_000_000_000_000));
    assert!(!passes_filtering(9_999_999_999_999, 10_000_000_000_000));
    assert!(passes_filtering(1_800_000_000_000, -1));
    assert!(passes_filtering(1_800_000_000_000, 0));
}

#[test]
fn numbered_labels_are_zero_padded() {
    assert_eq!(barcode_label(5), "barcode05");
    assert_eq!(barcode_label(10), "barcode10");
    assert_eq!(barcode_label(96), "barcode96");
    assert_eq!(barcode_label(1), "barcode01");
}

#[test]
fn read_id_has_the_uuid_like_shape() {
    let mut rng = rand::thread_rng();
    for _ in 0..50 {
        let id = generate_read_id(&mut rng);
        let bytes = id.as_bytes();
        assert_eq!(bytes.len(), 36);
        for (i, b) in bytes.iter().enumerate() {
            if i == 8 || i == 13 || i == 18 || i == 23 {
                assert_eq!(*b, b'-');
            } else {
                assert!(b.is_ascii_lowercase() || b.is_ascii_digit());
            }
        }
    }
}

#[test]
fn barcode_is_always_one_of_the_allowed_labels() {
    let mut rng = rand::thread_rng();
    for _ in 0..2000 {
        let label = generate_barcode_arrangement(&mut rng, "barcode01");
        let ok = label == "barcode01"
            || label == "unclassified"
            || label == "-"
            || is_numbered_label(&label);
        assert!(ok, "unexpected label {label}");
    }
}

fn is_numbered_label(label: &str) -> bool {
    if let Some(rest) = label.strip_prefix("barcode") {
        if rest.len() == 2 && rest.bytes().all(|b| b.is_ascii_digit()) {
            let n: u32 = rest.parse().unwrap();
            return (1..=96).contains(&n);
        }
    }
    false
}

#[test]
fn barcode_frequencies_match_the_split() {
    let mut rng = rand::thread_rng();
    let n = 100_000;
    let mut dominant = 0u32;
    let mut unclassified = 0u32;
    let mut dash = 0u32;
    for _ in 0..n {
        match generate_barcode_arrangement(&mut rng, "dominant_sample").as_str() {
            "dominant_sample" => dominant += 1,
            "unclassified" => unclassified += 1,
            "-" => dash += 1,
            _ => {}
        }
    }
    let total = n as f64;
    assert!((dominant as f64 / total - 0.85).abs() < 0.02);
    assert!((unclassified as f64 / total - 0.10).abs() < 0.015);
    assert!((dash as f64 / total - 0.005).abs() < 0.004);
}
