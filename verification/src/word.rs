//! Arithmetic on the machine word, a 32-bit signed integer in two's
//! complement.

use vstd::prelude::*;

verus! {

/// The number of distinct words, 2^32.
pub open spec fn modulus() -> int {
    0x1_0000_0000
}

/// The word that is congruent to `x` modulo 2^32.
pub open spec fn wrap(x: int) -> i32 {
    let m = x % modulus();
    if m >= 0x8000_0000 {
        (m - modulus()) as i32
    } else {
        m as i32
    }
}

/// The quotient of `n` by `d`, rounded toward zero.
pub open spec fn quotient(n: int, d: int) -> int {
    if n >= 0 {
        n / d
    } else {
        -((-n) / d)
    }
}

/// The remainder that goes with [`quotient`]; it is zero or has the sign of `n`.
pub open spec fn remainder(n: int, d: int) -> int {
    if n >= 0 {
        n % d
    } else {
        -((-n) % d)
    }
}

/// The shift distance that a word stands for: its low five bits.
pub open spec fn shift_distance(distance: i32) -> u32 {
    (distance as u32) % 32
}

/// `value` shifted left; bits that leave the word are lost.
pub open spec fn shift_left(value: i32, distance: i32) -> i32 {
    value << shift_distance(distance)
}

/// `value` shifted right as an unsigned quantity: zeros enter from the left.
pub open spec fn shift_right(value: i32, distance: i32) -> i32 {
    ((value as u32) >> shift_distance(distance)) as i32
}

/// A value inside the word range stands for itself.
pub proof fn lemma_wrap_in_range(x: int)
    requires
        i32::MIN <= x <= i32::MAX,
    ensures
        wrap(x) == x,
{
}

/// Wrapping forgets multiples of 2^32 and nothing else.
pub proof fn lemma_wrap_congruent(x: int)
    ensures
        (wrap(x) - x) % modulus() == 0,
{
}

/// Quotient and remainder split the dividend: `n == d * q + r` with `r`
/// smaller in magnitude than `d` and never of the opposite sign to `n`.
pub proof fn lemma_quotient_remainder(n: int, d: int)
    requires
        d != 0,
    ensures
        n == d * quotient(n, d) + remainder(n, d),
        n >= 0 ==> 0 <= remainder(n, d),
        n <= 0 ==> remainder(n, d) <= 0,
        d > 0 ==> -d < remainder(n, d) < d,
        d < 0 ==> d < remainder(n, d) < -d,
{
    let m = if n >= 0 { n } else { -n };
    assert(m == d * (m / d) + m % d && 0 <= m % d && (d > 0 ==> m % d < d) && (d < 0 ==> m % d
        < -d)) by (nonlinear_arith)
        requires
            d != 0,
    ;
    assert(d * -(m / d) == -(d * (m / d))) by (nonlinear_arith);
    assert(0int % d == 0) by (nonlinear_arith)
        requires
            d != 0,
    ;
}

/// The quotient of two words is a word, but for the least word divided by -1;
/// the remainder of two words is always a word.
pub proof fn lemma_quotient_bound(n: int, d: int)
    requires
        d != 0,
        i32::MIN <= n <= i32::MAX,
        i32::MIN <= d <= i32::MAX,
    ensures
        !(n == i32::MIN && d == -1) ==> i32::MIN <= quotient(n, d) <= i32::MAX,
        i32::MIN <= remainder(n, d) <= i32::MAX,
{
    lemma_quotient_remainder(n, d);
    let q = quotient(n, d);
    let r = remainder(n, d);
    assert(!(n == i32::MIN && d == -1) ==> i32::MIN <= q <= i32::MAX) by (nonlinear_arith)
        requires
            n == d * q + r,
            d != 0,
            d > 0 ==> -d < r < d,
            d < 0 ==> d < r < -d,
            n >= 0 ==> 0 <= r,
            n <= 0 ==> r <= 0,
            i32::MIN <= n <= i32::MAX,
            i32::MIN <= d <= i32::MAX,
    ;
}

} // verus!
