//! Fixed-point helpers: integer fifth roots and scaled powers.
//!
//! The gamma expansion of an sRGB channel raises a value to the power
//! `2.4 == 12 / 5`. In fixed-point arithmetic that is a twelfth power
//! followed by a fifth root, so both operations are defined and verified
//! here over plain integers.

use vstd::prelude::*;

verus! {

use vstd::arithmetic::div_mod::lemma_div_is_ordered;
use vstd::arithmetic::div_mod::lemma_div_multiples_vanish;
use vstd::arithmetic::div_mod::lemma_div_pos_is_pos;
use vstd::arithmetic::mul::lemma_mul_nonnegative;
use vstd::arithmetic::mul::lemma_mul_upper_bound;

/// One unit in the scale that `pow_scaled` works at: eighteen decimal
/// places, so that the high powers of small channel values keep enough
/// precision.
pub const POW_SCALE: u64 = 1_000_000_000_000_000_000;

/// The fifth power of an integer.
pub open spec fn pow5(x: int) -> int {
    x * x * x * x * x
}

/// `k`-th power of a fixed-point value `t` in scale `POW_SCALE`, with the
/// intermediate result floored back into the scale after each multiplication.
pub open spec fn pow_scaled(t: int, k: nat) -> int
    decreases k,
{
    if k <= 1 {
        t
    } else {
        pow_scaled(t, (k - 1) as nat) * t / (POW_SCALE as int)
    }
}

/// The floor of the real fifth root of `n`.
pub open spec fn root5_floor(n: int) -> int {
    choose|r: int| 0 <= r && #[trigger] pow5(r) <= n < pow5(r + 1)
}

/// The fifth power is monotone over the non-negative integers.
pub proof fn lemma_pow5_increases(a: int, b: int)
    requires
        0 <= a <= b,
    ensures
        pow5(a) <= pow5(b),
{
    assert(a * a * a * a * a <= b * b * b * b * b) by (nonlinear_arith)
        requires
            0 <= a <= b,
    ;
}

/// The fifth power is strictly monotone over the non-negative integers.
pub proof fn lemma_pow5_strictly_increases(a: int, b: int)
    requires
        0 <= a < b,
    ensures
        pow5(a) < pow5(b),
{
    assert(a * a * a * a * a < b * b * b * b * b) by (nonlinear_arith)
        requires
            0 <= a < b,
    ;
}

/// Every non-negative integer has a floor fifth root.
pub proof fn lemma_root5_floor_exists(n: int)
    requires
        0 <= n,
    ensures
        exists|r: int| 0 <= r && #[trigger] pow5(r) <= n < pow5(r + 1),
    decreases n,
{
    if n == 0 {
        assert(0 <= 0 && pow5(0) <= 0 < pow5(1));
    } else {
        lemma_root5_floor_exists(n - 1);
        let r = choose|r: int| 0 <= r && #[trigger] pow5(r) <= n - 1 < pow5(r + 1);
        if n < pow5(r + 1) {
            assert(0 <= r && pow5(r) <= n < pow5(r + 1));
        } else {
            assert(n == pow5(r + 1));
            lemma_pow5_strictly_increases(r + 1, r + 2);
            assert(0 <= r + 1 && pow5(r + 1) <= n < pow5(r + 2));
        }
    }
}

/// A value satisfying the floor-root property is the floor fifth root.
pub proof fn lemma_root5_floor_is(n: int, r: int)
    requires
        0 <= r,
        pow5(r) <= n < pow5(r + 1),
    ensures
        root5_floor(n) == r,
{
    assert(exists|x: int| 0 <= x && #[trigger] pow5(x) <= n < pow5(x + 1)) by {
        assert(0 <= r && pow5(r) <= n < pow5(r + 1));
    }
    let c = root5_floor(n);
    if c < r {
        lemma_pow5_increases(c + 1, r);
        assert(false);
    }
    if r < c {
        lemma_pow5_increases(r + 1, c);
        assert(false);
    }
}

/// A scaled power of a value within the scale stays within the scale.
pub proof fn lemma_pow_scaled_bounds(t: int, k: nat)
    requires
        0 <= t <= POW_SCALE,
    ensures
        0 <= pow_scaled(t, k) <= POW_SCALE,
    decreases k,
{
    if k <= 1 {
    } else {
        lemma_pow_scaled_bounds(t, (k - 1) as nat);
        let s = pow_scaled(t, (k - 1) as nat);
        lemma_mul_nonnegative(s, t);
        lemma_mul_upper_bound(s, POW_SCALE as int, t, POW_SCALE as int);
        lemma_div_pos_is_pos(s * t, POW_SCALE as int);
        lemma_div_is_ordered(s * t, (POW_SCALE * POW_SCALE) as int, POW_SCALE as int);
        lemma_div_multiples_vanish(POW_SCALE as int, POW_SCALE as int);
    }
}

/// One unit of the scale raised to any positive scaled power is itself.
pub proof fn lemma_pow_scaled_fixpoint(k: nat)
    requires
        k >= 1,
    ensures
        pow_scaled(POW_SCALE as int, k) == POW_SCALE,
    decreases k,
{
    if k > 1 {
        lemma_pow_scaled_fixpoint((k - 1) as nat);
        lemma_div_multiples_vanish(POW_SCALE as int, POW_SCALE as int);
    }
}

/// The floor fifth root of `n`, by binary search.
pub fn root5(n: u128) -> (r: u64)
    requires
        n <= 1_000_000_000_000_000_000_000_000_000_000u128,
    ensures
        r <= 1_000_000,
        pow5(r as int) <= (n as int) && (n as int) < pow5(r as int + 1),
        r as int == root5_floor(n as int),
{
    let mut lo: u64 = 0;
    let mut hi: u64 = 1_000_001;
    proof {
        assert(pow5(0) <= n as int);
        assert((n as int) < pow5(1_000_001)) by {
            assert(pow5(1_000_001) == 1_000_005_000_010_000_010_000_005_000_001int);
        }
    }
    while lo + 1 < hi
        invariant
            lo < hi <= 1_000_001,
            n <= 1_000_000_000_000_000_000_000_000_000_000u128,
            pow5(lo as int) <= (n as int) && (n as int) < pow5(hi as int),
        decreases hi - lo,
    {
        let mid: u64 = lo + (hi - lo) / 2;
        let m: u128 = mid as u128;
        proof {
            lemma_mul_upper_bound(m as int, 1_000_001, m as int, 1_000_001);
            lemma_mul_upper_bound(
                (m * m) as int,
                1_000_001int * 1_000_001,
                m as int,
                1_000_001,
            );
            lemma_mul_upper_bound(
                (m * m * m) as int,
                1_000_001 * 1_000_001int * 1_000_001,
                m as int,
                1_000_001,
            );
            lemma_mul_upper_bound(
                (m * m * m * m) as int,
                1_000_001 * 1_000_001 * 1_000_001int * 1_000_001,
                m as int,
                1_000_001,
            );
        }
        let p: u128 = m * m * m * m * m;
        if p <= n {
            lo = mid;
        } else {
            hi = mid;
        }
    }
    proof {
        lemma_root5_floor_is(n as int, lo as int);
    }
    lo
}

} // verus!
