//! The arithmetic of the sample project that the analysis is demonstrated on.

use vstd::prelude::*;

verus! {

/// The quotient of `a` by `b`, rounded towards zero, as machine division gives it.
/// In specifications `/` rounds so that the remainder is never negative, which
/// agrees with rounding towards zero whenever the dividend is not negative.
pub open spec fn truncated_quotient(a: int, b: int) -> int
    recommends
        b != 0,
{
    if a >= 0 {
        a / b
    } else {
        -((-a) / b)
    }
}

/// The sum of `a` and `b`.
pub fn add(a: i32, b: i32) -> (r: i32)
    requires
        i32::MIN <= a + b <= i32::MAX,
    ensures
        r == a + b,
{
    a + b
}

/// The difference of `a` and `b`.
pub fn sub(a: i32, b: i32) -> (r: i32)
    requires
        i32::MIN <= a - b <= i32::MAX,
    ensures
        r == a - b,
{
    a - b
}

/// The product of `a` and `b`.
pub fn mul(a: i32, b: i32) -> (r: i32)
    requires
        i32::MIN <= a * b <= i32::MAX,
    ensures
        r == a * b,
{
    a * b
}

/// A quotient rounded towards zero is no larger in magnitude than its dividend.
pub proof fn lemma_truncated_quotient_bounds(a: int, b: int)
    requires
        b != 0,
    ensures
        a >= 0 ==> -a <= truncated_quotient(a, b) <= a,
        a < 0 ==> a <= truncated_quotient(a, b) <= -a,
{
    let n: int = if a >= 0 { a } else { -a };
    let q: int = n / b;
    assert(-n <= q <= n) by (nonlinear_arith)
        requires
            n >= 0,
            b != 0,
            q == n / b,
    ;
}

/// The quotient of `a` by a divisor that the caller knows to be usable.
pub fn div_unchecked(a: i32, b: i32) -> (r: i32)
    requires
        b != 0,
        !(a == i32::MIN && b == -1),
    ensures
        r == truncated_quotient(a as int, b as int),
{
    proof {
        lemma_truncated_quotient_bounds(a as int, b as int);
        if a == i32::MIN {
            let q: int = (-(a as int)) / (b as int);
            assert(q != -0x8000_0000) by (nonlinear_arith)
                requires
                    q == 0x8000_0000int / (b as int),
                    b != 0,
                    b != -1,
            ;
        }
    }
    a / b
}

/// The quotient of `a` by `b`, or `None` when `b` is zero.
pub fn div(a: i32, b: i32) -> (r: Option<i32>)
    requires
        !(a == i32::MIN && b == -1),
    ensures
        b == 0 ==> r.is_none(),
        b != 0 ==> r.is_some() && r.unwrap() == truncated_quotient(a as int, b as int),
{
    if b != 0 {
        Some(div_unchecked(a, b))
    } else {
        None
    }
}

} // verus!
