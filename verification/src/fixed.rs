//! Signed fixed-point arithmetic helpers.
//!
//! A fixed-point value stores a quantity scaled by [`FP_ONE`] (2^16), so one
//! map tile is `FP_ONE` units wide. All helpers here carry exact contracts
//! over mathematical integers; `/` on `int` in specifications is Euclidean
//! division, which for the positive divisors used here coincides with
//! rounding toward negative infinity.

use vstd::prelude::*;

verus! {

use vstd::arithmetic::div_mod::lemma_fundamental_div_mod;
use vstd::arithmetic::div_mod::lemma_fundamental_div_mod_converse;
use vstd::arithmetic::div_mod::lemma_mod_pos_bound;
use vstd::arithmetic::div_mod::lemma_div_nonincreasing;
use vstd::arithmetic::div_mod::lemma_div_pos_is_pos;
use vstd::arithmetic::div_mod::lemma_div_is_ordered;

/// One whole unit (one map tile) in fixed-point form: 2^16.
pub const FP_ONE: i64 = 65536;

/// Magnitudes of coordinates handled by these helpers stay below this bound,
/// far outside any map but comfortably inside `i64`.
pub const FP_RANGE: i64 = 0x4000_0000_0000_0000;

/// Floor division by a positive divisor, written `a` div `d` in contracts.
/// Euclidean division on `int` rounds toward negative infinity when the
/// divisor is positive, so the contract is simply the `int` quotient.
pub fn floor_div(a: i64, d: i64) -> (q: i64)
    requires
        0 < d,
    ensures
        q == a as int / d as int,
{
    let t = a / d;
    let r = a % d;
    proof {
        let ai = a as int;
        let di = d as int;
        if a < 0 {
            // Rust's `/` truncates toward zero; rebuild the Euclidean
            // quotient and remainder of `a` from those of `-a`.
            let n = -ai;
            lemma_fundamental_div_mod(n, di);
            lemma_mod_pos_bound(n, di);
            lemma_div_nonincreasing(n, di);
            lemma_div_pos_is_pos(n, di);
            let qn = n / di;
            let rn = n % di;
            if r != 0 {
                // A nonzero remainder means d does not divide a, so d >= 2
                // and the truncating quotient stays clear of i64::MIN.
                assert(di >= 2) by {
                    if di == 1 {
                        assert(n % 1int == 0);
                    }
                };
                assert(qn <= 0x4000_0000_0000_0000) by (nonlinear_arith)
                    requires
                        n == di * qn + rn,
                        0 <= rn,
                        2 <= di,
                        0 <= qn,
                        n <= 0x8000_0000_0000_0000,
                ;
                assert(ai == (t - 1) * di + (r + d)) by (nonlinear_arith)
                    requires
                        ai == -(di * qn + rn),
                        t as int == -qn,
                        r as int == -rn,
                        di == d as int,
                ;
                lemma_fundamental_div_mod_converse(ai, di, (t - 1) as int, (r + d) as int);
            } else {
                assert(ai == t * di + 0) by (nonlinear_arith)
                    requires
                        ai == -(di * qn + rn),
                        t as int == -qn,
                        rn == 0,
                ;
                lemma_fundamental_div_mod_converse(ai, di, t as int, 0);
            }
        }
    }
    if a < 0 && r != 0 {
        t - 1
    } else {
        t
    }
}

/// The tile index that a fixed-point coordinate falls in.
pub open spec fn spec_tile(v: int) -> int {
    v / (FP_ONE as int)
}

/// Any `i64` coordinate floors to a tile index well inside `i64`.
pub proof fn lemma_tile_range(v: int)
    requires
        i64::MIN <= v <= i64::MAX,
    ensures
        -0x8000_0000_0000 <= spec_tile(v) <= 0x8000_0000_0000,
{
    lemma_div_is_ordered(i64::MIN as int, v, FP_ONE as int);
    lemma_div_is_ordered(v, i64::MAX as int, FP_ONE as int);
    assert((i64::MIN as int) / (FP_ONE as int) == -0x8000_0000_0000);
    assert((i64::MAX as int) / (FP_ONE as int) == 0x7fff_ffff_ffff);
}

/// Floors a fixed-point coordinate to its tile index.
pub fn tile_of(v: i64) -> (c: i64)
    ensures
        c == spec_tile(v as int),
        -0x8000_0000_0000 <= c <= 0x8000_0000_0000,
{
    proof {
        lemma_tile_range(v as int);
    }
    floor_div(v, FP_ONE)
}

/// The greatest multiple of `FP_ONE` that is at most `v`.
pub open spec fn spec_fp_floor(v: int) -> int {
    (v / (FP_ONE as int)) * (FP_ONE as int)
}

/// The least multiple of `FP_ONE` that is at least `v`.
pub open spec fn spec_fp_ceil(v: int) -> int {
    ((v + FP_ONE - 1) / (FP_ONE as int)) * (FP_ONE as int)
}

/// Rounds a fixed-point value down to a whole number of tiles.
pub fn fp_floor(v: i64) -> (r: i64)
    requires
        -FP_RANGE < v < FP_RANGE,
    ensures
        r == spec_fp_floor(v as int),
        v - FP_ONE < r <= v,
        r as int % (FP_ONE as int) == 0,
{
    proof {
        lemma_fundamental_div_mod(v as int, FP_ONE as int);
    }
    floor_div(v, FP_ONE) * FP_ONE
}

/// Rounds a fixed-point value up to a whole number of tiles.
pub fn fp_ceil(v: i64) -> (r: i64)
    requires
        -FP_RANGE < v < FP_RANGE - FP_ONE,
    ensures
        r == spec_fp_ceil(v as int),
        v <= r < v + FP_ONE,
        r as int % (FP_ONE as int) == 0,
{
    proof {
        lemma_fundamental_div_mod((v + FP_ONE - 1) as int, FP_ONE as int);
    }
    floor_div(v + FP_ONE - 1, FP_ONE) * FP_ONE
}

/// Clamps `v` into `[-bound, bound]`.
pub fn clamp_abs(v: i64, bound: i64) -> (r: i64)
    requires
        0 <= bound,
    ensures
        r == spec_clamp_abs(v as int, bound as int),
{
    if v > bound {
        bound
    } else if v < -bound {
        -bound
    } else {
        v
    }
}

/// Specification of [`clamp_abs`].
pub open spec fn spec_clamp_abs(v: int, bound: int) -> int {
    if v > bound {
        bound
    } else if v < -bound {
        -bound
    } else {
        v
    }
}

/// Whether `r` is the integer square root of `n`.
pub open spec fn is_sqrt(n: int, r: int) -> bool {
    &&& 0 <= r
    &&& r * r <= n
    &&& n < (r + 1) * (r + 1)
}

/// The integer square root of a non-negative `n` (the unique `r` with
/// `r * r <= n < (r + 1) * (r + 1)`).
pub open spec fn spec_sqrt(n: int) -> int {
    choose|r: int| is_sqrt(n, r)
}

/// Any two integer square roots of the same value coincide.
pub proof fn lemma_sqrt_unique(n: int, a: int, b: int)
    requires
        is_sqrt(n, a),
        is_sqrt(n, b),
    ensures
        a == b,
{
    if a < b {
        assert((a + 1) * (a + 1) <= b * b) by (nonlinear_arith)
            requires
                0 <= a,
                a < b,
        ;
    }
    if b < a {
        assert((b + 1) * (b + 1) <= a * a) by (nonlinear_arith)
            requires
                0 <= b,
                b < a,
        ;
    }
}

/// Every non-negative integer has an integer square root, so
/// [`spec_sqrt`] denotes it and is itself non-negative.
pub proof fn lemma_sqrt_exists(n: int)
    requires
        0 <= n,
    ensures
        is_sqrt(n, spec_sqrt(n)),
        0 <= spec_sqrt(n),
    decreases n,
{
    if n == 0 {
        assert(is_sqrt(0, 0)) by (nonlinear_arith);
    } else {
        lemma_sqrt_exists(n - 1);
        let r = spec_sqrt(n - 1);
        if n < (r + 1) * (r + 1) {
            assert(is_sqrt(n, r));
        } else {
            assert(is_sqrt(n, r + 1)) by (nonlinear_arith)
                requires
                    is_sqrt(n - 1, r),
                    (r + 1) * (r + 1) <= n,
            ;
        }
        assert(exists|q: int| is_sqrt(n, q));
    }
}

/// Integer square root by bisection over the answer.
pub fn isqrt(n: u128) -> (r: u64)
    ensures
        is_sqrt(n as int, r as int),
        r == spec_sqrt(n as int),
{
    let mut lo: u128 = 0;
    let mut hi: u128 = 0x1_0000_0000_0000_0000;
    proof {
        assert((0x1_0000_0000_0000_0000 as int) * (0x1_0000_0000_0000_0000 as int)
            > u128::MAX as int) by (nonlinear_arith);
    }
    while lo + 1 < hi
        invariant
            0 <= lo < hi <= 0x1_0000_0000_0000_0000,
            (lo as int) * (lo as int) <= n as int,
            (n as int) < (hi as int) * (hi as int),
        decreases hi - lo,
    {
        let mid = lo + (hi - lo) / 2;
        assert(lo < mid < hi);
        proof {
            assert((mid as int) * (mid as int) <= u128::MAX as int) by (nonlinear_arith)
                requires
                    0 <= mid as int <= 0xffff_ffff_ffff_ffff,
            ;
        }
        if mid * mid <= n {
            lo = mid;
        } else {
            hi = mid;
        }
    }
    proof {
        assert(is_sqrt(n as int, lo as int));
        lemma_sqrt_unique(n as int, lo as int, spec_sqrt(n as int));
    }
    lo as u64
}

/// Euclidean length of the fixed-point vector `(a, b)`, rounded down.
pub open spec fn spec_distance(a: int, b: int) -> int {
    spec_sqrt(a * a + b * b)
}

/// Fixed-point Euclidean distance from the origin to `(a, b)`.
pub fn fp_distance(a: i64, b: i64) -> (d: i64)
    requires
        -0x1_0000_0000_0000 <= a <= 0x1_0000_0000_0000,
        -0x1_0000_0000_0000 <= b <= 0x1_0000_0000_0000,
    ensures
        d == spec_distance(a as int, b as int),
        0 <= d,
{
    let au: u128 = if a < 0 {
        (-a) as u128
    } else {
        a as u128
    };
    let bu: u128 = if b < 0 {
        (-b) as u128
    } else {
        b as u128
    };
    proof {
        assert((au as int) * (au as int) == (a as int) * (a as int) && (bu as int) * (bu as int)
            == (b as int) * (b as int) && (au as int) * (au as int) + (bu as int) * (bu as int)
            <= u128::MAX as int) by (nonlinear_arith)
            requires
                -0x1_0000_0000_0000 <= a as int <= 0x1_0000_0000_0000,
                -0x1_0000_0000_0000 <= b as int <= 0x1_0000_0000_0000,
                au as int == a as int || au as int == -(a as int),
                bu as int == b as int || bu as int == -(b as int),
                au as int >= 0,
                bu as int >= 0,
        ;
    }
    let aa = au * au;
    let bb = bu * bu;
    let r = isqrt(aa + bb);
    proof {
        let n = (a as int) * (a as int) + (b as int) * (b as int);
        assert(is_sqrt(n, r as int));
        assert((0x2_0000_0000_0000 as int) * (0x2_0000_0000_0000 as int) > n)
            by (nonlinear_arith)
            requires
                n == (a as int) * (a as int) + (b as int) * (b as int),
                -0x1_0000_0000_0000 <= a as int <= 0x1_0000_0000_0000,
                -0x1_0000_0000_0000 <= b as int <= 0x1_0000_0000_0000,
        ;
        if r as int >= 0x2_0000_0000_0000 {
            assert((r as int) * (r as int) >= (0x2_0000_0000_0000 as int)
                * (0x2_0000_0000_0000 as int)) by (nonlinear_arith)
                requires
                    r as int >= 0x2_0000_0000_0000,
            ;
        }
    }
    r as i64
}

} // verus!
