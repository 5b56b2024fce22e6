//! Fixed-point arithmetic: a number `n` stands for `n / UNIT`.

use vstd::prelude::*;

verus! {

/// How many steps make one whole: one pixel, one radian, the factor one.
pub const UNIT: i64 = 1000;

/// The quotient of `a` by a positive `b`, rounded toward zero.
pub open spec fn quot(a: int, b: int) -> int
    recommends
        b > 0,
{
    if a >= 0 {
        a / b
    } else {
        -((-a) / b)
    }
}

/// The product of two fixed-point numbers, rounded toward zero.
pub open spec fn fixed_product(a: int, b: int) -> int {
    quot(a * b, UNIT as int)
}

/// Multiplies two fixed-point numbers.
pub fn fixed_mul(a: i64, b: i64) -> (r: i64)
    requires
        i64::MIN <= a * b <= i64::MAX,
    ensures
        r == fixed_product(a as int, b as int),
{
    a * b / UNIT
}

/// Rounding toward zero commutes with negation.
pub proof fn quot_is_odd(a: int, b: int)
    requires
        b > 0,
    ensures
        quot(-a, b) == -quot(a, b),
{
    if a == 0 {
        assert(0int / b == 0) by (nonlinear_arith)
            requires
                b > 0,
        ;
    }
}

/// A quotient by a positive number is no longer than what was divided, and
/// has its sign.
pub proof fn quot_is_bounded(a: int, b: int)
    requires
        b > 0,
    ensures
        a >= 0 ==> 0 <= quot(a, b) <= a,
        a <= 0 ==> a <= quot(a, b) <= 0,
{
    if a >= 0 {
        assert(0 <= a / b <= a) by (nonlinear_arith)
            requires
                a >= 0,
                b > 0,
        ;
    } else {
        let m = -a;
        assert(0 <= m / b <= m) by (nonlinear_arith)
            requires
                m >= 0,
                b > 0,
        ;
    }
}

} // verus!
