//! WCAG contrast evaluation over sRGB colors, in exact fixed-point
//! arithmetic.
//!
//! A color is a triple of 8-bit channels. Each channel is linearized with
//! the piecewise sRGB gamma expansion, the channels are combined with the
//! standard perceptual weights into a relative luminance, and two
//! luminances give a contrast ratio. Ratios, thresholds and rounded values
//! carry six decimal places (`1_000_000` is `1.0`); luminance carries ten
//! (`10_000_000_000` is `1.0`).

use vstd::prelude::*;

verus! {

use crate::fixed::POW_SCALE;
use crate::fixed::lemma_pow5_increases;
use crate::fixed::lemma_pow_scaled_bounds;
use crate::fixed::lemma_pow_scaled_fixpoint;
use crate::fixed::lemma_root5_floor_is;
use crate::fixed::lemma_root5_floor_exists;
use crate::fixed::pow5;
use crate::fixed::pow_scaled;
use crate::fixed::root5;
use crate::fixed::root5_floor;
use vstd::arithmetic::div_mod::lemma_div_is_ordered;
use vstd::arithmetic::div_mod::lemma_div_multiples_vanish;
use vstd::arithmetic::div_mod::lemma_div_pos_is_pos;
use vstd::arithmetic::div_mod::lemma_fundamental_div_mod;
use vstd::arithmetic::div_mod::lemma_mod_bound;
use vstd::arithmetic::mul::lemma_mul_upper_bound;

/// An sRGB color: red, green and blue channels, each in `0..=255`.
pub type Color = (u8, u8, u8);

/// One unit (`1.0`) in the six-decimal fixed-point scale used for
/// linearized channels, contrast ratios and frame rates.
pub const FIXED_ONE: u64 = 1_000_000;

/// One unit (`1.0`) in the ten-decimal fixed-point scale used for
/// relative luminance.
pub const LUMINANCE_ONE: u64 = 10_000_000_000;

/// The additive luminance offset `0.05` of the WCAG contrast formula, in
/// the luminance scale.
pub const LUMINANCE_OFFSET: u64 = 500_000_000;

/// Contrast ratio at or above which ordinary text meets tier AA: `4.5`.
pub const AA_THRESHOLD: u64 = 4_500_000;

/// Contrast ratio at or above which ordinary text meets tier AAA: `7.0`.
pub const AAA_THRESHOLD: u64 = 7_000_000;

/// Contrast ratio at or above which large text meets tier AA: `3.0`.
pub const AA_LARGE_THRESHOLD: u64 = 3_000_000;

/// Pass flags of the three WCAG conformance tiers.
#[derive(Clone, Copy, PartialEq, Eq, PartialOrd, Ord, Debug, Structural)]
pub enum ContrastPasses {
    /// Minimum acceptable contrast for ordinary text.
    AA(bool),
    /// Enhanced contrast.
    AAA(bool),
    /// Minimum acceptable contrast for large text.
    AALarge(bool),
}

/// Pass flags of the three tiers as one record with named fields, so a
/// renderer can format the result without variant introspection.
#[derive(Clone, Copy, PartialEq, Eq, Debug, Structural)]
pub struct ComplianceResult {
    /// Whether the ratio meets tier AA for ordinary text.
    pub aa: bool,
    /// Whether the ratio meets tier AAA.
    pub aaa: bool,
    /// Whether the ratio meets tier AA for large text.
    pub aa_large: bool,
}

/// The gamma argument `((v / 255) + 0.055) / 1.055` of a channel value
/// `v`, in scale `POW_SCALE`. The fraction reduces to
/// `(1000 * v + 14025) / 269025` exactly.
pub open spec fn gamma_ratio_spec(v: u8) -> int {
    ((1000 * v + 14025) * (POW_SCALE as int)) / 269025
}

/// The linearized value of one channel in scale `FIXED_ONE`: below the
/// sRGB cutoff (`v / 255 <= 0.03928`, that is `v <= 10`) the channel is
/// divided by `12.92`, so the scaled value is `(v * 10^7) / 32946`
/// exactly; above it the gamma argument is raised to the power
/// `2.4 == 12 / 5`.
pub open spec fn linear_channel_spec(v: u8) -> int {
    if v <= 10 {
        (v * 10_000_000) / 32946
    } else {
        root5_floor(
            pow_scaled(gamma_ratio_spec(v), 12) * 1_000_000_000_000,
        )
    }
}

/// Relative luminance in scale `LUMINANCE_ONE`: the channel weights
/// `0.2126`, `0.7152` and `0.0722` scale the six-decimal channel values up
/// by a further factor of ten thousand.
pub open spec fn luminance_spec(color: Color) -> int {
    2126 * linear_channel_spec(color.0) + 7152 * linear_channel_spec(color.1)
        + 722 * linear_channel_spec(color.2)
}

/// The WCAG contrast ratio of two colors in scale `FIXED_ONE`:
/// `(lighter + 0.05) / (darker + 0.05)` over their luminances.
pub open spec fn contrast_spec(bg: Color, fg: Color) -> int {
    let bl = luminance_spec(bg);
    let fl = luminance_spec(fg);
    if bl > fl {
        ((bl + LUMINANCE_OFFSET) * FIXED_ONE) / (fl + LUMINANCE_OFFSET)
    } else {
        ((fl + LUMINANCE_OFFSET) * FIXED_ONE) / (bl + LUMINANCE_OFFSET)
    }
}

/// Tier AA passes exactly when the ratio reaches `AA_THRESHOLD`.
pub open spec fn aa_passes(score: int) -> bool {
    score >= AA_THRESHOLD
}

/// Tier AAA passes exactly when the ratio reaches `AAA_THRESHOLD`.
pub open spec fn aaa_passes(score: int) -> bool {
    score >= AAA_THRESHOLD
}

/// Tier AA for large text passes exactly when the ratio reaches
/// `AA_LARGE_THRESHOLD`.
pub open spec fn aa_large_passes(score: int) -> bool {
    score >= AA_LARGE_THRESHOLD
}

/// A linearized channel lies in `[0, FIXED_ONE]`.
pub proof fn lemma_linear_channel_bounds(v: u8)
    ensures
        0 <= linear_channel_spec(v) <= FIXED_ONE,
{
    if v <= 10 {
        lemma_div_pos_is_pos(v * 10_000_000, 32946);
        lemma_div_is_ordered(v * 10_000_000, 100_000_000, 32946);
    } else {
        let x = 1000 * (v as int) + 14025;
        lemma_div_pos_is_pos(x * (POW_SCALE as int), 269025);
        lemma_div_is_ordered(x * (POW_SCALE as int), 269025 * (POW_SCALE as int), 269025);
        lemma_div_multiples_vanish(POW_SCALE as int, 269025);
        let t = gamma_ratio_spec(v);
        assert(0 <= t <= POW_SCALE);
        lemma_pow_scaled_bounds(t, 12);
        let n = pow_scaled(t, 12) * 1_000_000_000_000;
        assert(0 <= n <= 1_000_000_000_000_000_000_000_000_000_000int);
        lemma_root5_floor_exists(n);
        let r = root5_floor(n);
        assert(0 <= r && pow5(r) <= n < pow5(r + 1));
        if r > 1_000_000 {
            lemma_pow5_increases(1_000_001, r);
            assert(pow5(1_000_001) == 1_000_005_000_010_000_010_000_005_000_001int);
            assert(false);
        }
    }
}

/// Relative luminance lies in `[0, LUMINANCE_ONE]`.
pub proof fn lemma_luminance_bounds(color: Color)
    ensures
        0 <= luminance_spec(color) <= LUMINANCE_ONE,
{
    lemma_linear_channel_bounds(color.0);
    lemma_linear_channel_bounds(color.1);
    lemma_linear_channel_bounds(color.2);
}

/// A pure white channel linearizes to exactly `1.0`.
pub proof fn lemma_linear_channel_white()
    ensures
        linear_channel_spec(255) == FIXED_ONE,
{
    lemma_div_multiples_vanish(POW_SCALE as int, 269025);
    assert(gamma_ratio_spec(255) == POW_SCALE);
    lemma_pow_scaled_fixpoint(12);
    lemma_root5_floor_is(
        (POW_SCALE as int) * 1_000_000_000_000,
        FIXED_ONE as int,
    );
}

/// Pure white has relative luminance exactly `1.0` and pure black exactly
/// `0.0`.
pub proof fn lemma_luminance_extremes()
    ensures
        luminance_spec((255u8, 255u8, 255u8)) == LUMINANCE_ONE,
        luminance_spec((0u8, 0u8, 0u8)) == 0,
{
    lemma_linear_channel_white();
    assert(linear_channel_spec(0) == 0) by {
        lemma_div_pos_is_pos(0, 32946);
        lemma_div_is_ordered(0, 0, 32946);
    }
}

/// Two colors of equal luminance have contrast exactly `1.0`.
pub proof fn lemma_equal_luminance_contrast(a: Color, b: Color)
    requires
        luminance_spec(a) == luminance_spec(b),
    ensures
        contrast_spec(a, b) == FIXED_ONE,
{
    lemma_luminance_bounds(a);
    lemma_div_multiples_vanish(FIXED_ONE as int, luminance_spec(a) + LUMINANCE_OFFSET);
}

/// Pure white against pure black gives contrast exactly `21.0`, the top of
/// the range.
pub proof fn lemma_contrast_extremes()
    ensures
        contrast_spec((255u8, 255u8, 255u8), (0u8, 0u8, 0u8)) == 21 * FIXED_ONE,
        contrast_spec((0u8, 0u8, 0u8), (255u8, 255u8, 255u8)) == 21 * FIXED_ONE,
{
    lemma_luminance_extremes();
    lemma_contrast_symmetric((255u8, 255u8, 255u8), (0u8, 0u8, 0u8));
}

/// The ratio `(hi + 0.05) / (lo + 0.05)` of two ordered luminances lies in
/// `[1.0, 21.0]`.
proof fn lemma_ratio_range(hi: int, lo: int)
    requires
        0 <= lo <= hi <= LUMINANCE_ONE,
    ensures
        FIXED_ONE <= ((hi + LUMINANCE_OFFSET) * FIXED_ONE) / (lo + LUMINANCE_OFFSET),
        ((hi + LUMINANCE_OFFSET) * FIXED_ONE) / (lo + LUMINANCE_OFFSET) <= 21 * FIXED_ONE,
{
    let d = lo + LUMINANCE_OFFSET;
    let nmr = (hi + LUMINANCE_OFFSET) * FIXED_ONE;
    lemma_div_multiples_vanish(FIXED_ONE as int, d);
    lemma_div_is_ordered(d * FIXED_ONE, nmr, d);
    assert(hi + LUMINANCE_OFFSET <= 21 * d);
    lemma_div_multiples_vanish(21 * FIXED_ONE, d);
    lemma_div_is_ordered(nmr, d * (21 * FIXED_ONE), d);
}

/// A contrast ratio always lies in `[1.0, 21.0]`.
pub proof fn lemma_contrast_range(bg: Color, fg: Color)
    ensures
        FIXED_ONE <= contrast_spec(bg, fg) <= 21 * FIXED_ONE,
{
    lemma_luminance_bounds(bg);
    lemma_luminance_bounds(fg);
    let bl = luminance_spec(bg);
    let fl = luminance_spec(fg);
    if bl > fl {
        lemma_ratio_range(bl, fl);
    } else {
        lemma_ratio_range(fl, bl);
    }
}

/// A color contrasted with itself gives exactly `1.0`.
pub proof fn lemma_contrast_reflexive(color: Color)
    ensures
        contrast_spec(color, color) == FIXED_ONE,
{
    lemma_equal_luminance_contrast(color, color);
}

/// Swapping foreground and background leaves the contrast ratio unchanged.
pub proof fn lemma_contrast_symmetric(a: Color, b: Color)
    ensures
        contrast_spec(a, b) == contrast_spec(b, a),
{
}

/// Every ratio at or above the AAA threshold passes all three tiers.
pub proof fn lemma_enhanced_ratio_passes_all(score: int)
    requires
        score >= AAA_THRESHOLD,
    ensures
        aa_passes(score),
        aaa_passes(score),
        aa_large_passes(score),
{
}

/// Every ratio in the band from the large-text threshold up to (but not
/// including) the AA threshold passes only the large-text tier.
pub proof fn lemma_large_text_band(score: int)
    requires
        AA_LARGE_THRESHOLD <= score < AA_THRESHOLD,
    ensures
        aa_large_passes(score),
        !aa_passes(score),
        !aaa_passes(score),
{
}

/// Evaluates a contrast ratio against the three thresholds, each
/// independently; a high ratio satisfies all three at once.
pub fn classify(score: u64) -> (result: ComplianceResult)
    ensures
        result.aa == aa_passes(score as int),
        result.aaa == aaa_passes(score as int),
        result.aa_large == aa_large_passes(score as int),
{
    ComplianceResult {
        aa: score >= AA_THRESHOLD,
        aaa: score >= AAA_THRESHOLD,
        aa_large: score >= AA_LARGE_THRESHOLD,
    }
}

impl ContrastPasses {
    /// The pass flags of the three tiers for a contrast ratio, in
    /// declaration order: AA, AAA, AA-Large.
    pub fn get_rating(score: u64) -> (rating: [ContrastPasses; 3])
        ensures
            rating[0] == ContrastPasses::AA(aa_passes(score as int)),
            rating[1] == ContrastPasses::AAA(aaa_passes(score as int)),
            rating[2] == ContrastPasses::AALarge(aa_large_passes(score as int)),
    {
        let flags = classify(score);
        [
            ContrastPasses::AA(flags.aa),
            ContrastPasses::AAA(flags.aaa),
            ContrastPasses::AALarge(flags.aa_large),
        ]
    }

    /// The WCAG contrast ratio of a background and a foreground color, in
    /// scale `FIXED_ONE`.
    pub fn get_contrast(bg: Color, fg: Color) -> (score: u64)
        ensures
            score as int == contrast_spec(bg, fg),
            FIXED_ONE <= score <= 21 * FIXED_ONE,
    {
        let bg_luminance = Self::get_luminance(bg);
        let fg_luminance = Self::get_luminance(fg);
        proof {
            lemma_contrast_range(bg, fg);
        }
        if bg_luminance > fg_luminance {
            ((bg_luminance + LUMINANCE_OFFSET) * FIXED_ONE) / (fg_luminance + LUMINANCE_OFFSET)
        } else {
            ((fg_luminance + LUMINANCE_OFFSET) * FIXED_ONE) / (bg_luminance + LUMINANCE_OFFSET)
        }
    }

    /// The relative luminance of a color, in scale `LUMINANCE_ONE`.
    pub fn get_luminance(color: Color) -> (lum: u64)
        ensures
            lum as int == luminance_spec(color),
            lum <= LUMINANCE_ONE,
    {
        let r = Self::luminance_x(color.0);
        let g = Self::luminance_x(color.1);
        let b = Self::luminance_x(color.2);
        2126 * r + 7152 * g + 722 * b
    }

    /// The linearized value of one channel, in scale `FIXED_ONE`.
    fn luminance_x(v: u8) -> (r: u64)
        ensures
            r as int == linear_channel_spec(v),
            r <= FIXED_ONE,
    {
        if v <= 10 {
            proof {
                lemma_div_pos_is_pos(v * 10_000_000, 32946);
                lemma_div_is_ordered(v * 10_000_000, 100_000_000, 32946);
            }
            (v as u64 * 10_000_000) / 32946
        } else {
            let tw: u128 = ((1000 * (v as u128) + 14025) * (POW_SCALE as u128)) / 269025;
            proof {
                lemma_div_is_ordered(
                    (1000 * (v as int) + 14025) * (POW_SCALE as int),
                    269025 * (POW_SCALE as int),
                    269025,
                );
                lemma_div_multiples_vanish(POW_SCALE as int, 269025);
                lemma_div_pos_is_pos((1000 * (v as int) + 14025) * (POW_SCALE as int), 269025);
                assert(tw <= POW_SCALE);
            }
            let t: u64 = tw as u64;
            let mut s: u64 = t;
            let mut i: u64 = 1;
            while i < 12
                invariant
                    1 <= i <= 12,
                    t <= POW_SCALE,
                    s as int == pow_scaled(t as int, i as nat),
                    s <= POW_SCALE,
                decreases 12 - i,
            {
                proof {
                    lemma_mul_upper_bound(s as int, POW_SCALE as int, t as int, POW_SCALE as int);
                }
                let prod: u128 = (s as u128) * (t as u128);
                proof {
                    lemma_div_is_ordered(
                        prod as int,
                        (POW_SCALE as int) * (POW_SCALE as int),
                        POW_SCALE as int,
                    );
                    lemma_div_multiples_vanish(POW_SCALE as int, POW_SCALE as int);
                    lemma_div_pos_is_pos(prod as int, POW_SCALE as int);
                }
                let q: u128 = prod / (POW_SCALE as u128);
                proof {
                    assert(pow_scaled(t as int, (i + 1) as nat) == pow_scaled(t as int, i as nat)
                        * (t as int) / (POW_SCALE as int));
                }
                s = q as u64;
                i = i + 1;
            }
            let n: u128 = (s as u128) * 1_000_000_000_000u128;
            root5(n)
        }
    }
}

/// The power of ten that one fixed-point unit is divided into after
/// rounding to `precision` decimal places; every precision of six or more
/// keeps the full fixed-point resolution.
pub open spec fn round_factor(precision: u32) -> int {
    if precision == 0 {
        1_000_000
    } else if precision == 1 {
        100_000
    } else if precision == 2 {
        10_000
    } else if precision == 3 {
        1_000
    } else if precision == 4 {
        100
    } else if precision == 5 {
        10
    } else {
        1
    }
}

/// A fixed-point value rounded to `precision` decimal places, half away
/// from zero.
pub open spec fn round_fixed_spec(num: int, precision: u32) -> int {
    let f = round_factor(precision);
    ((num + f / 2) / f) * f
}

/// Rounds a fixed-point value in scale `FIXED_ONE` to `precision` decimal
/// places, half away from zero.
pub fn round_float(num: u64, precision: u32) -> (r: u64)
    requires
        num <= u64::MAX - 500_000,
    ensures
        r as int == round_fixed_spec(num as int, precision),
{
    let factor: u64 = if precision == 0 {
        1_000_000
    } else if precision == 1 {
        100_000
    } else if precision == 2 {
        10_000
    } else if precision == 3 {
        1_000
    } else if precision == 4 {
        100
    } else if precision == 5 {
        10
    } else {
        1
    };
    let shifted: u64 = num + factor / 2;
    let q: u64 = shifted / factor;
    proof {
        lemma_fundamental_div_mod(shifted as int, factor as int);
        lemma_mod_bound(shifted as int, factor as int);
    }
    q * factor
}

} // verus!
