//! Exact arithmetic on raw fixed-point values: products scaled back to the
//! unit, quotients rounded toward zero, and integer square roots.

use vstd::prelude::*;
use vstd::arithmetic::div_mod::{lemma_fundamental_div_mod, lemma_mod_bound};
use crate::vector::{StorageTy, ONE};

verus! {

/// The quotient of `n` by a positive `d`, rounded toward zero.
pub open spec fn trunc_div(n: int, d: int) -> int {
    if n >= 0 {
        n / d
    } else {
        -((-n) / d)
    }
}

/// The fixed-point product of two raw values: their integer product brought
/// back to the unit and rounded toward zero.
pub open spec fn scale_product(a: int, b: int) -> int {
    trunc_div(a * b, ONE as int)
}

/// `r` is the largest integer whose square does not exceed `n`.
pub open spec fn is_floor_sqrt(r: int, n: int) -> bool {
    0 <= r && r * r <= n < (r + 1) * (r + 1)
}

/// The square root of `n`, rounded down.
pub open spec fn floor_sqrt(n: int) -> int {
    choose|r: int| is_floor_sqrt(r, n)
}

/// The square root of `n`, rounded up.
pub open spec fn ceil_sqrt(n: int) -> int {
    let r = floor_sqrt(n);
    if r * r == n {
        r
    } else {
        r + 1
    }
}

/// The rounded-up square root of `n` is the least natural number whose
/// square reaches `n`.
pub proof fn lemma_ceil_sqrt(n: int)
    requires
        n >= 0,
    ensures
        0 <= ceil_sqrt(n),
        n <= ceil_sqrt(n) * ceil_sqrt(n),
        n > 0 ==> ceil_sqrt(n) > 0 && (ceil_sqrt(n) - 1) * (ceil_sqrt(n) - 1) < n,
        n == 0 ==> ceil_sqrt(n) == 0,
{
    lemma_floor_sqrt_exists(n);
    let r = floor_sqrt(n);
    assert(is_floor_sqrt(r, n));
    if r * r != n {
        assert((r + 1 - 1) * (r + 1 - 1) == r * r) by (nonlinear_arith);
    } else if n > 0 {
        assert(r > 0 && (r - 1) * (r - 1) < r * r) by (nonlinear_arith)
            requires
                r >= 0,
                r * r > 0,
        ;
    }
    if n == 0 {
        assert(r == 0) by (nonlinear_arith)
            requires
                r >= 0,
                r * r <= 0,
        ;
    }
}

/// Every natural number has a rounded-down square root.
pub proof fn lemma_floor_sqrt_exists(n: int)
    requires
        n >= 0,
    ensures
        is_floor_sqrt(floor_sqrt(n), n),
    decreases n,
{
    if n == 0 {
        assert(is_floor_sqrt(0, 0));
    } else {
        lemma_floor_sqrt_exists(n - 1);
        let r = floor_sqrt(n - 1);
        if (r + 1) * (r + 1) <= n {
            assert((r + 1) * (r + 1) == n);
            assert(n < (r + 2) * (r + 2)) by (nonlinear_arith)
                requires
                    r >= 0,
                    (r + 1) * (r + 1) == n,
            ;
            assert(is_floor_sqrt(r + 1, n));
        } else {
            assert(is_floor_sqrt(r, n));
        }
    }
}

/// At most one integer is the rounded-down square root of `n`.
pub proof fn lemma_floor_sqrt_unique(r: int, s: int, n: int)
    requires
        is_floor_sqrt(r, n),
        is_floor_sqrt(s, n),
    ensures
        r == s,
{
    if r < s {
        assert((r + 1) * (r + 1) <= s * s) by (nonlinear_arith)
            requires
                0 <= r,
                r + 1 <= s,
        ;
    } else if s < r {
        assert((s + 1) * (s + 1) <= r * r) by (nonlinear_arith)
            requires
                0 <= s,
                s + 1 <= r,
        ;
    }
}

/// Rounding toward zero never overshoots, and loses less than one divisor.
pub proof fn lemma_trunc_div_error(n: int, d: int)
    requires
        d > 0,
    ensures
        n >= 0 ==> 0 <= n - trunc_div(n, d) * d < d,
        n <= 0 ==> 0 <= trunc_div(n, d) * d - n < d,
        n >= 0 ==> 0 <= trunc_div(n, d) * d,
        n <= 0 ==> trunc_div(n, d) * d <= 0,
{
    if n >= 0 {
        lemma_fundamental_div_mod(n, d);
        lemma_mod_bound(n, d);
        assert(d * (n / d) == (n / d) * d) by (nonlinear_arith);
    } else {
        lemma_fundamental_div_mod(-n, d);
        lemma_mod_bound(-n, d);
        assert((-((-n) / d)) * d == -(d * ((-n) / d))) by (nonlinear_arith);
    }
    let q = trunc_div(n, d);
    assert((n >= 0 ==> 0 <= q * d) && (n <= 0 ==> q * d <= 0)) by (nonlinear_arith)
        requires
            d > 0,
            n >= 0 ==> 0 <= n - q * d < d,
            n <= 0 ==> 0 <= q * d - n < d,
    ;
}

/// A quotient rounded toward zero is no larger in magnitude than any bound
/// whose multiple by the divisor bounds the dividend.
pub proof fn lemma_trunc_div_magnitude(n: int, d: int, bound: int)
    requires
        d > 0,
        bound >= 0,
        -(bound * d) <= n <= bound * d,
    ensures
        -bound <= trunc_div(n, d) <= bound,
        n >= 0 ==> trunc_div(n, d) >= 0,
        n <= 0 ==> trunc_div(n, d) <= 0,
{
    lemma_trunc_div_error(n, d);
    let q = trunc_div(n, d);
    assert(-bound <= q <= bound && (n >= 0 ==> q >= 0) && (n <= 0 ==> q <= 0)) by (nonlinear_arith)
        requires
            d > 0,
            bound >= 0,
            -(bound * d) <= n <= bound * d,
            n >= 0 ==> 0 <= n - q * d < d,
            n <= 0 ==> 0 <= q * d - n < d,
    ;
}

/// Changing the sign of a factor changes the sign of a fixed-point product
/// and nothing else: rounding is toward zero on both sides of it.
pub proof fn lemma_scale_product_odd(a: int, b: int)
    ensures
        scale_product(-a, b) == -scale_product(a, b),
        scale_product(a, -b) == -scale_product(a, b),
{
    assert((-a) * b == -(a * b) && a * (-b) == -(a * b)) by (nonlinear_arith);
}

/// A fixed-point product differs from the exact product of the two numbers
/// by less than one raw unit of the result.
pub proof fn lemma_scale_product_error(a: int, b: int)
    ensures
        -(ONE as int) < scale_product(a, b) * ONE - a * b < ONE,
{
    lemma_trunc_div_error(a * b, ONE as int);
}

/// Divides `n` by a positive `d`, rounding toward zero.
pub fn div_toward_zero(n: i128, d: i128) -> (q: i128)
    requires
        d > 0,
        n > i128::MIN,
    ensures
        q == trunc_div(n as int, d as int),
{
    if n >= 0 {
        n / d
    } else {
        let m: i128 = -n;
        let p: i128 = m / d;
        -p
    }
}

/// Multiplies two raw values and brings the product back to the unit.
pub fn mul_scaled(a: i64, b: i64) -> (r: i128)
    ensures
        r == scale_product(a as int, b as int),
{
    assert(-0x4000_0000_0000_0000_0000_0000_0000_0000 <= a * b
        <= 0x4000_0000_0000_0000_0000_0000_0000_0000) by (nonlinear_arith)
        requires
            -0x8000_0000_0000_0000 <= a <= 0x8000_0000_0000_0000,
            -0x8000_0000_0000_0000 <= b <= 0x8000_0000_0000_0000,
    ;
    let wide_a: i128 = a as i128;
    let wide_b: i128 = b as i128;
    let product: i128 = wide_a * wide_b;
    div_toward_zero(product, ONE as i128)
}

/// The fixed-point product of two stored values.
pub fn mul_storage(a: StorageTy, b: StorageTy) -> (r: i64)
    ensures
        r == scale_product(a as int, b as int),
        -0x4000_0000_0000 <= r <= 0x4000_0000_0000,
{
    proof {
        assert(-(0x4000_0000_0000 * ONE) <= a * b <= 0x4000_0000_0000 * ONE) by (nonlinear_arith)
            requires
                -0x8000_0000 <= a <= 0x8000_0000,
                -0x8000_0000 <= b <= 0x8000_0000,
                ONE == 0x1_0000,
        ;
        lemma_trunc_div_magnitude(a * b, ONE as int, 0x4000_0000_0000);
    }
    let r: i128 = mul_scaled(a as i64, b as i64);
    r as i64
}

/// The square root of `n`, rounded down, found by bisection.
pub fn isqrt(n: u128) -> (r: u64)
    ensures
        is_floor_sqrt(r as int, n as int),
        r == floor_sqrt(n as int),
{
    let mut lo: u128 = 0;
    let mut hi: u128 = 0x1_0000_0000_0000_0000;
    assert(hi * hi > n) by (nonlinear_arith)
        requires
            hi == 0x1_0000_0000_0000_0000,
            n <= u128::MAX,
    ;
    while hi - lo > 1
        invariant
            lo < hi <= 0x1_0000_0000_0000_0000,
            lo * lo <= n < hi * hi,
        decreases hi - lo,
    {
        let mid: u128 = lo + (hi - lo) / 2;
        assert(mid * mid <= u128::MAX) by (nonlinear_arith)
            requires
                0 <= mid <= 0xFFFF_FFFF_FFFF_FFFF,
        ;
        if mid * mid <= n {
            lo = mid;
        } else {
            hi = mid;
        }
    }
    proof {
        assert(is_floor_sqrt(lo as int, n as int));
        lemma_floor_sqrt_unique(lo as int, floor_sqrt(n as int), n as int);
    }
    lo as u64
}

/// The square root of `n`, rounded up.
pub fn isqrt_up(n: u128) -> (r: u128)
    ensures
        r == ceil_sqrt(n as int),
        r <= 0x1_0000_0000_0000_0000,
{
    let floor: u64 = isqrt(n);
    let wide: u128 = floor as u128;
    assert(wide * wide <= u128::MAX) by (nonlinear_arith)
        requires
            0 <= wide <= 0xFFFF_FFFF_FFFF_FFFF,
    ;
    if wide * wide == n {
        wide
    } else {
        wide + 1
    }
}

} // verus!
