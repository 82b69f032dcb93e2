//! Checked fixed-point arithmetic shared by every engine.
//!
//! All ledger amounts are `u128`. Overflowing operations never wrap: they
//! report `ArithmeticFailure`, so a caller can roll the whole operation back.

use vstd::prelude::*;

use crate::error::ContractError;

verus! {

/// 10^e as a mathematical integer.
pub open spec fn pow10(e: nat) -> nat
    decreases e,
{
    if e == 0 {
        1
    } else {
        10 * pow10((e - 1) as nat)
    }
}

pub proof fn lemma_pow10_pos(e: nat)
    ensures
        pow10(e) >= 1,
    decreases e,
{
    if e > 0 {
        lemma_pow10_pos((e - 1) as nat);
    }
}

/// 10^e for every exponent the ledger can meet (asset decimals are
/// capped well below this bound).
pub fn pow10_u128(e: u32) -> (r: u128)
    requires
        e <= 38,
    ensures
        r == pow10(e as nat),
{
    let mut r: u128 = 1;
    let mut i: u32 = 0;
    while i < e
        invariant
            i <= e <= 38,
            r == pow10(i as nat),
        decreases e - i,
    {
        proof {
            lemma_pow10_within_u128((i + 1) as nat);
        }
        r = r * 10;
        i = i + 1;
    }
    r
}

pub proof fn lemma_pow10_within_u128(e: nat)
    requires
        e <= 38,
    ensures
        pow10(e) <= u128::MAX,
{
    lemma_pow10_increases(e, 38);
    assert(pow10(38) <= u128::MAX) by {
        reveal_with_fuel(pow10, 39);
    }
}

pub proof fn lemma_pow10_increases(e1: nat, e2: nat)
    requires
        e1 <= e2,
    ensures
        pow10(e1) <= pow10(e2),
    decreases e2,
{
    if e1 < e2 {
        lemma_pow10_increases(e1, (e2 - 1) as nat);
        lemma_pow10_pos((e2 - 1) as nat);
    }
}

/// `a * b / c`, failing if the product leaves the fixed-point range.
pub fn mul_div(a: u128, b: u128, c: u128) -> (r: Result<u128, ContractError>)
    requires
        c > 0,
    ensures
        a * b <= u128::MAX ==> r == Ok::<u128, ContractError>((a * b / (c as int)) as u128),
        a * b <= u128::MAX ==> 0 <= a * b / (c as int) <= a * b,
        a * b > u128::MAX ==> r == Err::<u128, ContractError>(ContractError::ArithmeticFailure),
{
    match a.checked_mul(b) {
        Some(p) => {
            proof {
                vstd::arithmetic::div_mod::lemma_div_is_ordered(0, a * b, c as int);
                vstd::arithmetic::div_mod::lemma_div_nonincreasing(a * b, c as int);
            }
            Ok(p / c)
        },
        None => Err(ContractError::ArithmeticFailure),
    }
}

/// A quotient of non-negative values over a positive divisor stays within
/// `[0, numerator]` when the divisor is at least 1.
pub proof fn lemma_mul_div_le(a: int, b: int, c: int)
    requires
        a >= 0,
        0 <= b <= c,
        c > 0,
    ensures
        0 <= a * b / c <= a,
{
    vstd::arithmetic::mul::lemma_mul_nonnegative(a, b);
    vstd::arithmetic::div_mod::lemma_div_is_ordered(0, a * b, c);
    vstd::arithmetic::mul::lemma_mul_inequality(b, c, a);
    vstd::arithmetic::mul::lemma_mul_is_commutative(b, a);
    vstd::arithmetic::mul::lemma_mul_is_commutative(c, a);
    vstd::arithmetic::div_mod::lemma_div_is_ordered(a * b, a * c, c);
    vstd::arithmetic::div_mod::lemma_div_multiples_vanish(a, c);
    vstd::arithmetic::mul::lemma_mul_is_commutative(a, c);
}

/// A floored quotient of non-negative values is non-negative and scales
/// back to at most the dividend.
pub proof fn lemma_div_bounds(u: int, v: int)
    requires
        u >= 0,
        v > 0,
    ensures
        0 <= u / v,
        (u / v) * v <= u,
{
    vstd::arithmetic::div_mod::lemma_div_is_ordered(0, u, v);
    vstd::arithmetic::div_mod::lemma_fundamental_div_mod(u, v);
    vstd::arithmetic::div_mod::lemma_remainder_lower(u, v);
    vstd::arithmetic::mul::lemma_mul_is_commutative(v, u / v);
}

} // verus!
