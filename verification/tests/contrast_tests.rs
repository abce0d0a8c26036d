use contrasity::contrast::classify;
use contrasity::contrast::ContrastPasses;
use contrasity::contrast::round_float;
use contrasity::contrast::{AAA_THRESHOLD, AA_LARGE_THRESHOLD, AA_THRESHOLD};
use contrasity::contrast::{FIXED_ONE, LUMINANCE_ONE};

/// A luminance in scale `LUMINANCE_ONE` as a plain float.
fn lum_f64(v: u64) -> f64 {
    v as f64 / LUMINANCE_ONE as f64
}

/// A ratio in scale `FIXED_ONE` as a plain float.
fn ratio_f64(v: u64) -> f64 {
    v as f64 / FIXED_ONE as f64
}

#[test]
fn test_get_luminance() {
    assert_eq!(lum_f64(ContrastPasses::get_luminance((255, 255, 255))), 1.0);
    assert_eq!(lum_f64(ContrastPasses::get_luminance((0, 0, 0))), 0.0);
}

#[test]
fn test_get_contrast() {
    assert_eq!(
        ratio_f64(ContrastPasses::get_contrast((255, 255, 255), (0, 0, 0))),
        21.0
    );
    assert_eq!(
        ratio_f64(ContrastPasses::get_contrast((0, 0, 0), (255, 255, 255))),
        21.0
    );
    assert_eq!(ratio_f64(ContrastPasses::get_contrast((0, 0, 0), (0, 0, 0))), 1.0);
    assert_eq!(
        ratio_f64(ContrastPasses::get_contrast((255, 255, 255), (255, 255, 255))),
        1.0
    );
    assert_eq!(
        ratio_f64(round_float(
            ContrastPasses::get_contrast((0, 0, 0), (0, 255, 255)),
            2
        )),
        16.75
    );
}

#[test]
fn test_luminance_values() {
    // the cyan default foreground: exactly 0.7152 + 0.0722
    assert_eq!(ContrastPasses::get_luminance((0, 255, 255)), 7_874_000_000);
    // a mid gray
    assert_eq!(ContrastPasses::get_luminance((128, 128, 128)), 2_158_600_000);
}

#[test]
fn test_contrast_self_is_one() {
    for color in [(12, 34, 56), (200, 10, 0), (255, 0, 128)] {
        assert_eq!(ContrastPasses::get_contrast(color, color), FIXED_ONE);
    }
}

#[test]
fn test_contrast_symmetry() {
    let pairs = [
        ((30, 144, 255), (0, 0, 0)),
        ((18, 52, 86), (200, 100, 50)),
        ((255, 255, 0), (0, 0, 255)),
    ];
    for (a, b) in pairs {
        assert_eq!(
            ContrastPasses::get_contrast(a, b),
            ContrastPasses::get_contrast(b, a)
        );
    }
}

#[test]
fn test_contrast_values() {
    assert_eq!(
        ContrastPasses::get_contrast((30, 144, 255), (0, 0, 0)),
        6_488_503
    );
    assert_eq!(
        ContrastPasses::get_contrast((18, 52, 86), (200, 100, 50)),
        3_224_648
    );
}

#[test]
fn test_contrast_range() {
    let colors = [(0, 0, 0), (255, 255, 255), (1, 2, 3), (128, 200, 64)];
    for a in colors {
        for b in colors {
            let score = ContrastPasses::get_contrast(a, b);
            assert!(FIXED_ONE <= score && score <= 21 * FIXED_ONE);
        }
    }
}

#[test]
fn test_get_rating_all_pass() {
    // every ratio at or above 7.0 passes all three tiers
    for score in [AAA_THRESHOLD, 10_000_000, 21_000_000] {
        let rating = ContrastPasses::get_rating(score);
        assert_eq!(rating[0], ContrastPasses::AA(true));
        assert_eq!(rating[1], ContrastPasses::AAA(true));
        assert_eq!(rating[2], ContrastPasses::AALarge(true));
    }
}

#[test]
fn test_get_rating_large_only_band() {
    // ratios in [3.0, 4.5) pass only the large-text tier
    for score in [AA_LARGE_THRESHOLD, 3_500_000, AA_THRESHOLD - 1] {
        let rating = ContrastPasses::get_rating(score);
        assert_eq!(rating[0], ContrastPasses::AA(false));
        assert_eq!(rating[1], ContrastPasses::AAA(false));
        assert_eq!(rating[2], ContrastPasses::AALarge(true));
    }
}

#[test]
fn test_get_rating_boundaries() {
    let below_large = ContrastPasses::get_rating(AA_LARGE_THRESHOLD - 1);
    assert_eq!(below_large[0], ContrastPasses::AA(false));
    assert_eq!(below_large[1], ContrastPasses::AAA(false));
    assert_eq!(below_large[2], ContrastPasses::AALarge(false));

    let at_aa = ContrastPasses::get_rating(AA_THRESHOLD);
    assert_eq!(at_aa[0], ContrastPasses::AA(true));
    assert_eq!(at_aa[1], ContrastPasses::AAA(false));
    assert_eq!(at_aa[2], ContrastPasses::AALarge(true));

    let below_aaa = ContrastPasses::get_rating(AAA_THRESHOLD - 1);
    assert_eq!(below_aaa[0], ContrastPasses::AA(true));
    assert_eq!(below_aaa[1], ContrastPasses::AAA(false));
    assert_eq!(below_aaa[2], ContrastPasses::AALarge(true));
}

#[test]
fn test_round_float() {
    assert_eq!(round_float(123_456, 2), 120_000);
    assert_eq!(round_float(125_000, 2), 130_000);
    assert_eq!(round_float(1_500_000, 0), 2_000_000);
    assert_eq!(round_float(1_499_999, 0), 1_000_000);
    assert_eq!(round_float(987_654, 6), 987_654);
    assert_eq!(round_float(987_654, 9), 987_654);
    assert_eq!(round_float(987_654, 5), 987_650);
}

#[test]
fn test_classify_thresholds() {
    let high = classify(7_000_000);
    assert!(high.aa && high.aaa && high.aa_large);
    let band = classify(3_000_000);
    assert!(!band.aa && !band.aaa && band.aa_large);
    let mid = classify(4_500_000);
    assert!(mid.aa && !mid.aaa && mid.aa_large);
    let low = classify(2_999_999);
    assert!(!low.aa && !low.aaa && !low.aa_large);
}
