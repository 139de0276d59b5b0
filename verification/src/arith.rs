//! Facts of integer arithmetic that the pricing formulas rest on.
use vstd::prelude::*;
use vstd::arithmetic::div_mod::{
    lemma_div_is_ordered, lemma_div_by_multiple, lemma_fundamental_div_mod, lemma_mod_pos_bound,
};
use vstd::arithmetic::mul::{
    lemma_mul_inequality, lemma_mul_is_commutative, lemma_mul_nonnegative, lemma_mul_is_distributive_add,
};

verus! {

/// Scaling `b` by a fraction `a / c` that is at most one gives at most `b`.
pub proof fn lemma_mul_div_le(a: int, b: int, c: int)
    requires
        0 <= a <= c,
        0 <= b,
        0 < c,
    ensures
        0 <= a * b / c <= b,
{
    lemma_mul_inequality(a, c, b);
    lemma_div_is_ordered(a * b, c * b, c);
    lemma_mul_is_commutative(c, b);
    lemma_div_by_multiple(b, c);
    lemma_mul_nonnegative(a, b);
    lemma_div_is_ordered(0, a * b, c);
}

/// Scaling `a` by a fraction `b / c` that is at least one gives at least `a`.
pub proof fn lemma_mul_div_ge(a: int, b: int, c: int)
    requires
        0 <= a,
        0 < c <= b,
    ensures
        a <= a * b / c,
{
    lemma_mul_is_commutative(a, c);
    lemma_mul_is_commutative(a, b);
    lemma_mul_inequality(c, b, a);
    lemma_div_is_ordered(a * c, a * b, c);
    lemma_div_by_multiple(a, c);
}

/// `x / y` rounded up.
pub open spec fn ceil_div(x: int, y: int) -> int {
    if x % y == 0 {
        x / y
    } else {
        x / y + 1
    }
}

/// Rounding up gives the least count of `y`s that reaches `x`.
pub proof fn lemma_ceil_div(x: int, y: int)
    requires
        0 <= x,
        0 < y,
    ensures
        x <= ceil_div(x, y) * y,
        ceil_div(x, y) * y < x + y,
        x / y <= ceil_div(x, y),
        0 <= ceil_div(x, y) <= x,
{
    lemma_fundamental_div_mod(x, y);
    lemma_mod_pos_bound(x, y);
    lemma_div_is_ordered(0, x, y);
    lemma_mul_is_commutative(y, x / y);
    lemma_mul_is_distributive_add(y, x / y, 1);
    lemma_mul_is_commutative(y, x / y + 1);
    let c = ceil_div(x, y);
    assert(c <= x) by (nonlinear_arith)
        requires
            c * y < x + y,
            y >= 1,
            c >= 0,
            x >= 0,
    ;
}

/// A count `n` of `y`s that reaches `x` is at least `x / y` rounded up.
pub proof fn lemma_ceil_div_least(x: int, y: int, n: int)
    requires
        0 <= x,
        0 < y,
        x <= n * y,
    ensures
        ceil_div(x, y) <= n,
{
    lemma_ceil_div(x, y);
    let c = ceil_div(x, y);
    assert(c <= n) by (nonlinear_arith)
        requires
            c * y < x + y,
            x <= n * y,
            y > 0,
    ;
}

/// Where `a / d1 <= b / d2` holds of the fractions, it holds of the
/// quotients rounded down.
pub proof fn lemma_div_cross_le(a: int, d1: int, b: int, d2: int)
    requires
        a >= 0,
        b >= 0,
        d1 > 0,
        d2 > 0,
        a * d2 <= b * d1,
    ensures
        a / d1 <= b / d2,
{
    let qa = a / d1;
    let qb = b / d2;
    lemma_fundamental_div_mod(a, d1);
    lemma_mod_pos_bound(a, d1);
    lemma_fundamental_div_mod(b, d2);
    lemma_mod_pos_bound(b, d2);
    lemma_mul_is_commutative(d1, qa);
    lemma_mul_is_commutative(d2, qb);
    lemma_mul_is_distributive_add(d2, qb, 1);
    lemma_mul_is_commutative(d2, qb + 1);
    assert(qa * d1 <= a);
    assert(b < (qb + 1) * d2);
    lemma_mul_inequality(qa * d1, a, d2);
    vstd::arithmetic::mul::lemma_mul_strict_inequality(b, (qb + 1) * d2, d1);
    assert(qa <= qb) by (nonlinear_arith)
        requires
            (qa * d1) * d2 <= a * d2,
            a * d2 <= b * d1,
            b * d1 < ((qb + 1) * d2) * d1,
            d1 > 0,
            d2 > 0,
    ;
}

} // verus!
