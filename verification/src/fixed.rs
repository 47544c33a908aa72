//! Fixed-point scalars: an `i64` holds `SCALE` subunits per world unit,
//! so `SCALE` itself stands for 1.0. Products are divided by `SCALE`
//! with truncation toward zero, as hardware division does.

use vstd::prelude::*;

verus! {

/// Subunits per world unit: a stored value `v` stands for `v / SCALE`
/// world units (or color intensity).
pub const SCALE: i64 = 1_000_000;

/// Truncating division (toward zero) of `x` by a positive divisor `d`,
/// written over the Euclidean `/` of specifications.
pub open spec fn div_trunc(x: int, d: int) -> int {
    if x >= 0 {
        x / d
    } else {
        -((-x) / d)
    }
}

/// The fixed-point product of `a` and `b`: exact product, scaled back
/// down by `SCALE` with truncation toward zero.
pub open spec fn fp_mul(a: int, b: int) -> int {
    div_trunc(a * b, SCALE as int)
}

/// Whether a mathematical integer is representable as an `i64`.
pub open spec fn in_i64(x: int) -> bool {
    i64::MIN <= x <= i64::MAX
}

/// Fixed-point multiplication, exact per `fp_mul`; the wide result is
/// total over all `i64` factors.
pub fn mul_fp_wide(a: i64, b: i64) -> (r: i128)
    ensures
        r as int == fp_mul(a as int, b as int),
{
    proof {
        lemma_i64_product_fits_i128(a as int, b as int);
    }
    let p: i128 = (a as i128) * (b as i128);
    proof {
        lemma_div_trunc_bounded(p as int, SCALE as int);
        vstd::arithmetic::div_mod::lemma_div_of0(SCALE as int);
        assert(i128::MIN <= div_trunc(p as int, SCALE as int) <= i128::MAX);
    }
    match p.checked_div(SCALE as i128) {
        Some(q) => q,
        None => 0,
    }
}

/// Fixed-point multiplication on `i64`, exact per `fp_mul`.
pub fn mul_fp(a: i64, b: i64) -> (r: i64)
    requires
        in_i64(fp_mul(a as int, b as int)),
    ensures
        r as int == fp_mul(a as int, b as int),
{
    mul_fp_wide(a, b) as i64
}

/// Multiplying by zero yields zero, also after rescaling.
pub proof fn lemma_fp_mul_zero(b: int)
    ensures
        fp_mul(0, b) == 0,
{
    vstd::arithmetic::div_mod::lemma_div_of0(SCALE as int);
}

/// Multiplying by the fixed-point one (`SCALE`) is exact.
pub proof fn lemma_fp_mul_one(b: int)
    ensures
        fp_mul(SCALE as int, b) == b,
{
    let s = SCALE as int;
    if b >= 0 {
        vstd::arithmetic::div_mod::lemma_div_multiples_vanish(b, s);
        assert(s * b == b * s) by (nonlinear_arith);
    } else {
        vstd::arithmetic::div_mod::lemma_div_multiples_vanish(-b, s);
        assert(-(s * b) == s * (-b)) by (nonlinear_arith);
    }
}

/// Truncating division by `d` of anything within `k * d` in magnitude
/// stays within `k`.
pub proof fn lemma_div_trunc_in_bound(x: int, d: int, k: int)
    requires
        d >= 1,
        k >= 0,
        -(k * d) <= x <= k * d,
    ensures
        -k <= div_trunc(x, d) <= k,
{
    assert(k * d == d * k) by (nonlinear_arith);
    if x >= 0 {
        vstd::arithmetic::div_mod::lemma_div_is_ordered(x, d * k, d);
        vstd::arithmetic::div_mod::lemma_div_multiples_vanish(k, d);
        vstd::arithmetic::div_mod::lemma_div_pos_is_pos(x, d);
    } else {
        vstd::arithmetic::div_mod::lemma_div_is_ordered(-x, d * k, d);
        vstd::arithmetic::div_mod::lemma_div_multiples_vanish(k, d);
        vstd::arithmetic::div_mod::lemma_div_pos_is_pos(-x, d);
    }
}

/// A fixed-point factor within [-1, 1] never grows the magnitude of
/// what it multiplies.
pub proof fn lemma_fp_mul_contracts(s: int, b: int, k: int)
    requires
        -(SCALE as int) <= s <= SCALE as int,
        -k <= b <= k,
        k >= 0,
    ensures
        -k <= fp_mul(s, b) <= k,
{
    let d = SCALE as int;
    assert(-(k * d) <= s * b <= k * d) by (nonlinear_arith)
        requires
            -d <= s <= d,
            -k <= b <= k,
            k >= 0,
            d >= 1,
    ;
    lemma_div_trunc_in_bound(s * b, d, k);
}

/// Over all `i64` factors, a fixed-point product stays far inside the
/// `i128` range, so wide partial sums of a few of them cannot wrap.
pub proof fn lemma_fp_mul_wide_bound(a: int, b: int)
    requires
        in_i64(a),
        in_i64(b),
    ensures
        -100_000_000_000_000_000_000_000_000_000_000int <= fp_mul(a, b)
            <= 100_000_000_000_000_000_000_000_000_000_000int,
{
    let k = 100_000_000_000_000_000_000_000_000_000_000int;
    assert(-(k * 1_000_000int) <= a * b <= k * 1_000_000int) by (nonlinear_arith)
        requires
            -0x8000_0000_0000_0000 <= a <= 0x7fff_ffff_ffff_ffff,
            -0x8000_0000_0000_0000 <= b <= 0x7fff_ffff_ffff_ffff,
            k == 100_000_000_000_000_000_000_000_000_000_000int,
    ;
    lemma_div_trunc_in_bound(a * b, SCALE as int, k);
}

/// The product of two `i64`-range integers fits in an `i128`.
proof fn lemma_i64_product_fits_i128(a: int, b: int)
    requires
        in_i64(a),
        in_i64(b),
    ensures
        i128::MIN <= a * b <= i128::MAX,
{
    assert(i128::MIN <= a * b <= i128::MAX) by (nonlinear_arith)
        requires
            -0x8000_0000_0000_0000 <= a <= 0x7fff_ffff_ffff_ffff,
            -0x8000_0000_0000_0000 <= b <= 0x7fff_ffff_ffff_ffff,
    ;
}

/// Truncating division by a positive divisor never grows the magnitude.
proof fn lemma_div_trunc_bounded(x: int, d: int)
    requires
        d >= 1,
    ensures
        x >= 0 ==> 0 <= div_trunc(x, d) <= x,
        x < 0 ==> x <= div_trunc(x, d) <= 0,
{
    if x >= 0 {
        assert(0 <= x / d <= x) by (nonlinear_arith)
            requires
                x >= 0,
                d >= 1,
        ;
    } else {
        assert(0 <= (-x) / d <= -x) by (nonlinear_arith)
            requires
                -x >= 0,
                d >= 1,
        ;
    }
}

} // verus!
