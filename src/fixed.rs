//! Fixed-point scalars: an `i64` holds a real number times `SCALE`.
//! Products are rounded toward negative infinity, quotients by Euclidean
//! division (down for a positive divisor, up for a negative one); every
//! operation reports an overflow instead of wrapping.
use vstd::prelude::*;

verus! {

/// Number of units in one: the value `x` stands for `x / SCALE`.
pub const SCALE: i64 = 1000000;

pub open spec fn in_i64(v: int) -> bool {
    i64::MIN <= v <= i64::MAX
}

pub open spec fn in_i128(v: int) -> bool {
    i128::MIN <= v <= i128::MAX
}

/// Fixed-point product of two values.
pub open spec fn mul_spec(a: int, b: int) -> int {
    (a * b) / (SCALE as int)
}

/// Fixed-point quotient of two values (`b != 0`), by Euclidean division.
pub open spec fn div_spec(a: int, b: int) -> int {
    (a * (SCALE as int)) / b
}

pub fn checked_add(a: i64, b: i64) -> (r: Option<i64>)
    ensures
        r is Some <==> in_i64(a + b),
        r is Some ==> r->0 == a + b,
{
    a.checked_add(b)
}

pub fn checked_sub(a: i64, b: i64) -> (r: Option<i64>)
    ensures
        r is Some <==> in_i64(a - b),
        r is Some ==> r->0 == a - b,
{
    a.checked_sub(b)
}

/// Narrows a wide intermediate to a scalar.
pub fn narrow(v: i128) -> (r: Option<i64>)
    ensures
        r is Some <==> in_i64(v as int),
        r is Some ==> r->0 == v,
{
    if v < i64::MIN as i128 || v > i64::MAX as i128 {
        None
    } else {
        Some(v as i64)
    }
}

pub fn fx_mul(a: i64, b: i64) -> (r: Option<i64>)
    ensures
        r is Some <==> in_i64(mul_spec(a as int, b as int)),
        r is Some ==> r->0 == mul_spec(a as int, b as int),
{
    proof {
        lemma_i64_product_fits(a as int, b as int);
    }
    let p: i128 = (a as i128) * (b as i128);
    match p.checked_div_euclid(SCALE as i128) {
        Some(q) => narrow(q),
        None => None,
    }
}

pub fn fx_div(a: i64, b: i64) -> (r: Option<i64>)
    requires
        b != 0,
    ensures
        r is Some <==> in_i64(div_spec(a as int, b as int)),
        r is Some ==> r->0 == div_spec(a as int, b as int),
{
    proof {
        lemma_i64_product_fits(a as int, SCALE as int);
    }
    let p: i128 = (a as i128) * (SCALE as i128);
    match p.checked_div_euclid(b as i128) {
        Some(q) => narrow(q),
        None => None,
    }
}

pub proof fn lemma_i64_product_fits(a: int, b: int)
    requires
        in_i64(a),
        in_i64(b),
    ensures
        in_i128(a * b),
{
    assert(-0x8000_0000_0000_0000_0000_0000_0000_0000 <= a * b <= 0x7fff_ffff_ffff_ffff_ffff_ffff_ffff_ffff) by (nonlinear_arith)
        requires
            -0x8000_0000_0000_0000 <= a <= 0x7fff_ffff_ffff_ffff,
            -0x8000_0000_0000_0000 <= b <= 0x7fff_ffff_ffff_ffff,
    ;
}

} // verus!

verus! {

/// `r` is the integer square root of `x`.
pub open spec fn is_isqrt(x: int, r: int) -> bool {
    0 <= r && r * r <= x < (r + 1) * (r + 1)
}

/// The integer square root of a non-negative `x`.
pub open spec fn isqrt_spec(x: int) -> int {
    choose|r: int| is_isqrt(x, r)
}

pub proof fn lemma_isqrt_unique(x: int, r1: int, r2: int)
    requires
        is_isqrt(x, r1),
        is_isqrt(x, r2),
    ensures
        r1 == r2,
{
    if r1 < r2 {
        assert((r1 + 1) * (r1 + 1) <= r2 * r2) by (nonlinear_arith)
            requires
                0 <= r1 + 1 <= r2,
        ;
    } else if r2 < r1 {
        assert((r2 + 1) * (r2 + 1) <= r1 * r1) by (nonlinear_arith)
            requires
                0 <= r2 + 1 <= r1,
        ;
    }
}

/// The largest `r` with `r * r <= x`, by bisection.
pub fn isqrt(x: i128) -> (r: i128)
    requires
        0 <= x < 0x4000_0000_0000_0000_0000_0000_0000_0000,
    ensures
        is_isqrt(x as int, r as int),
        r == isqrt_spec(x as int),
{
    let mut lo: i128 = 0;
    let mut hi: i128 = 0x8000_0000_0000_0000;
    assert(hi * hi == 0x4000_0000_0000_0000_0000_0000_0000_0000) by (nonlinear_arith)
        requires
            hi == 0x8000_0000_0000_0000i128,
    ;
    while hi - lo > 1
        invariant
            0 <= lo < hi <= 0x8000_0000_0000_0000i128,
            lo * lo <= x,
            x < hi * hi,
        decreases hi - lo,
    {
        let mid: i128 = lo + (hi - lo) / 2;
        assert(0 <= mid * mid <= 0x4000_0000_0000_0000_0000_0000_0000_0000) by (nonlinear_arith)
            requires
                0 <= mid <= 0x8000_0000_0000_0000i128,
        ;
        if mid * mid <= x {
            lo = mid;
        } else {
            hi = mid;
        }
    }
    proof {
        assert(hi == lo + 1);
        let r = isqrt_spec(x as int);
        assert(is_isqrt(x as int, lo as int));
        lemma_isqrt_unique(x as int, lo as int, r);
    }
    lo
}

/// The fixed-point quotient of `a` by `b` can be computed from wide values.
pub open spec fn wide_div_fits(a: int, b: int) -> bool {
    in_i128(a * (SCALE as int)) && in_i64(div_spec(a, b))
}

/// Fixed-point quotient of two wide values (`b != 0`).
pub fn wide_div(a: i128, b: i128) -> (r: Option<i64>)
    requires
        b != 0,
    ensures
        r is Some <==> wide_div_fits(a as int, b as int),
        r matches Some(v) ==> v == div_spec(a as int, b as int),
{
    let p = match a.checked_mul(SCALE as i128) {
        Some(p) => p,
        None => return None,
    };
    match p.checked_div_euclid(b) {
        Some(q) => narrow(q),
        None => None,
    }
}

} // verus!
