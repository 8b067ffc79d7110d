//! Fixed-point helpers: products of two 64-bit amounts divided by a third,
//! computed without intermediate overflow.

use vstd::prelude::*;
use crate::errors::TriadProtocolError;

verus! {

/// `a * b / d`, truncated toward zero.
pub open spec fn mul_div(a: int, b: int, d: int) -> int {
    (a * b) / d
}

/// `a * b / d`, rounded to the nearest integer; a fraction of exactly one
/// half is rounded up.
pub open spec fn mul_div_round(a: int, b: int, d: int) -> int {
    (2 * (a * b) + d) / (2 * d)
}

/// Rounding to nearest is truncation plus one exactly when the remainder is
/// at least half the divisor.
pub proof fn lemma_round_is_floor_plus_carry(n: int, d: int)
    requires
        0 <= n,
        0 < d,
    ensures
        (2 * n + d) / (2 * d) == n / d + if 2 * (n % d) >= d { 1int } else { 0int },
{
    let q = n / d;
    let r = n % d;
    assert(n == q * d + r && 0 <= r < d) by (nonlinear_arith)
        requires
            q == n / d,
            r == n % d,
            0 < d,
    ;
    if 2 * r >= d {
        assert((2 * n + d) / (2 * d) == q + 1) by (nonlinear_arith)
            requires
                n == q * d + r,
                0 <= r < d,
                2 * r >= d,
                0 < d,
        ;
    } else {
        assert((2 * n + d) / (2 * d) == q) by (nonlinear_arith)
            requires
                n == q * d + r,
                0 <= r < d,
                2 * r < d,
                0 < d,
        ;
    }
}

/// The product of two 64-bit values fits in 128 bits.
pub proof fn lemma_product_fits(a: u64, b: u64)
    ensures
        0 <= a * b < u128::MAX,
{
    assert(0 <= a * b <= 0xffff_ffff_ffff_ffff * 0xffff_ffff_ffff_ffff) by (nonlinear_arith)
        requires
            0 <= a <= 0xffff_ffff_ffff_ffff,
            0 <= b <= 0xffff_ffff_ffff_ffff,
    ;
}

/// `a + b`, or `ArithmeticFailure` where the sum does not fit.
pub fn add_or_fail(a: u64, b: u64) -> (r: Result<u64, TriadProtocolError>)
    ensures
        match r {
            Ok(sum) => sum == a + b,
            Err(e) => e == TriadProtocolError::ArithmeticFailure && a + b > u64::MAX,
        },
{
    match a.checked_add(b) {
        Some(sum) => Ok(sum),
        None => Err(TriadProtocolError::ArithmeticFailure),
    }
}

/// `a - b`, or `ArithmeticFailure` where `b` exceeds `a`.
pub fn sub_or_fail(a: u64, b: u64) -> (r: Result<u64, TriadProtocolError>)
    ensures
        match r {
            Ok(difference) => difference == a - b,
            Err(e) => e == TriadProtocolError::ArithmeticFailure && a < b,
        },
{
    match a.checked_sub(b) {
        Some(difference) => Ok(difference),
        None => Err(TriadProtocolError::ArithmeticFailure),
    }
}

/// `a * b`, or `ArithmeticFailure` where the product does not fit.
pub fn mul_or_fail(a: u64, b: u64) -> (r: Result<u64, TriadProtocolError>)
    ensures
        match r {
            Ok(product) => product == a * b,
            Err(e) => e == TriadProtocolError::ArithmeticFailure && a * b > u64::MAX,
        },
{
    match a.checked_mul(b) {
        Some(product) => Ok(product),
        None => Err(TriadProtocolError::ArithmeticFailure),
    }
}

/// The signed difference `gained - paid`, or `ArithmeticFailure` where it
/// does not fit in 64 bits.
pub fn signed_difference(gained: u64, paid: u64) -> (r: Result<i64, TriadProtocolError>)
    ensures
        match r {
            Ok(d) => d == gained - paid,
            Err(e) => e == TriadProtocolError::ArithmeticFailure && !(i64::MIN <= gained - paid
                <= i64::MAX),
        },
{
    let d: i128 = (gained as i128) - (paid as i128);
    if d < i64::MIN as i128 || d > i64::MAX as i128 {
        Err(TriadProtocolError::ArithmeticFailure)
    } else {
        Ok(d as i64)
    }
}

/// Truncating `a * b / d`. `None` when `d` is zero or the quotient does not
/// fit in 64 bits.
pub fn mul_div_floor(a: u64, b: u64, d: u64) -> (r: Option<u64>)
    ensures
        match r {
            Some(q) => d > 0 && q == mul_div(a as int, b as int, d as int),
            None => d == 0 || mul_div(a as int, b as int, d as int) > u64::MAX,
        },
{
    if d == 0 {
        return None;
    }
    proof {
        lemma_product_fits(a, b);
    }
    let n: u128 = (a as u128) * (b as u128);
    let q: u128 = n / (d as u128);
    if q > u64::MAX as u128 {
        None
    } else {
        Some(q as u64)
    }
}

/// `a * b / d` rounded to nearest, halves up. `None` when `d` is zero or the
/// rounded quotient does not fit in 64 bits.
pub fn mul_div_nearest(a: u64, b: u64, d: u64) -> (r: Option<u64>)
    ensures
        match r {
            Some(q) => d > 0 && q == mul_div_round(a as int, b as int, d as int),
            None => d == 0 || mul_div_round(a as int, b as int, d as int) > u64::MAX,
        },
{
    if d == 0 {
        return None;
    }
    proof {
        lemma_product_fits(a, b);
        lemma_round_is_floor_plus_carry(a * b, d as int);
    }
    let n: u128 = (a as u128) * (b as u128);
    let q: u128 = n / (d as u128);
    let rem: u128 = n % (d as u128);
    let carry: u128 = if rem >= (d as u128) - rem { 1 } else { 0 };
    assert(q <= n) by (nonlinear_arith)
        requires
            q == n / (d as u128),
            d > 0,
    ;
    let rounded: u128 = q + carry;
    if rounded > u64::MAX as u128 {
        None
    } else {
        Some(rounded as u64)
    }
}

} // verus!
