//! Overflow-checked arithmetic on 128-bit amounts.
//!
//! Every operation yields nothing rather than a wrapped or truncated value, and
//! nothing is absorbing: once a step of a computation has failed, the whole
//! computation has.

use vstd::prelude::*;

verus! {

/// The product of two amounts, if both exist and it fits.
pub open spec fn opt_mul(a: Option<u128>, b: Option<u128>) -> Option<u128> {
    match (a, b) {
        (Some(x), Some(y)) => if x * y > u128::MAX {
            None
        } else {
            Some((x * y) as u128)
        },
        _ => None,
    }
}

/// The sum of two amounts, if both exist and it fits.
pub open spec fn opt_add(a: Option<u128>, b: Option<u128>) -> Option<u128> {
    match (a, b) {
        (Some(x), Some(y)) => if x + y > u128::MAX {
            None
        } else {
            Some((x + y) as u128)
        },
        _ => None,
    }
}

/// The difference of two amounts, if both exist and it is not negative.
pub open spec fn opt_sub(a: Option<u128>, b: Option<u128>) -> Option<u128> {
    match (a, b) {
        (Some(x), Some(y)) => if x < y {
            None
        } else {
            Some((x - y) as u128)
        },
        _ => None,
    }
}

/// The quotient of two amounts, rounded down, if both exist and the divisor is
/// not zero.
pub open spec fn opt_div(a: Option<u128>, b: Option<u128>) -> Option<u128> {
    match (a, b) {
        (Some(x), Some(y)) => if y == 0 {
            None
        } else {
            Some(x / y)
        },
        _ => None,
    }
}

/// The quotient of two amounts, rounded up, if both exist, the divisor is not
/// zero and the rounding does not overflow.
pub open spec fn opt_ceil_div(a: Option<u128>, b: Option<u128>) -> Option<u128> {
    match (a, b) {
        (Some(x), Some(y)) => if y == 0 {
            None
        } else if x % y == 0 {
            Some(x / y)
        } else {
            Some((x / y + 1) as u128)
        },
        _ => None,
    }
}

/// Whether two amounts differ by at most one.
pub open spec fn differ_by_at_most_one(a: u128, b: u128) -> bool {
    a - b <= 1 && b - a <= 1
}

/// Multiplies two optional amounts.
pub fn checked_product(a: Option<u128>, b: Option<u128>) -> (r: Option<u128>)
    ensures
        r == opt_mul(a, b),
{
    match (a, b) {
        (Some(x), Some(y)) => x.checked_mul(y),
        _ => None,
    }
}

/// Adds two optional amounts.
pub fn checked_sum(a: Option<u128>, b: Option<u128>) -> (r: Option<u128>)
    ensures
        r == opt_add(a, b),
{
    match (a, b) {
        (Some(x), Some(y)) => x.checked_add(y),
        _ => None,
    }
}

/// Subtracts the second optional amount from the first.
pub fn checked_difference(a: Option<u128>, b: Option<u128>) -> (r: Option<u128>)
    ensures
        r == opt_sub(a, b),
{
    match (a, b) {
        (Some(x), Some(y)) => x.checked_sub(y),
        _ => None,
    }
}

/// Divides the first optional amount by the second, rounding down.
pub fn checked_quotient(a: Option<u128>, b: Option<u128>) -> (r: Option<u128>)
    ensures
        r == opt_div(a, b),
{
    match (a, b) {
        (Some(x), Some(y)) => x.checked_div(y),
        _ => None,
    }
}

/// Divides the first optional amount by the second, rounding up.
pub fn checked_ceil_quotient(a: Option<u128>, b: Option<u128>) -> (r: Option<u128>)
    ensures
        r == opt_ceil_div(a, b),
{
    match (a, b) {
        (Some(x), Some(y)) => {
            if y == 0 {
                None
            } else {
                let quotient: u128 = x / y;
                if x % y == 0 {
                    Some(quotient)
                } else {
                    assert(quotient < u128::MAX) by (nonlinear_arith)
                        requires
                            quotient == x / y,
                            x % y != 0,
                            y > 0,
                            x <= u128::MAX,
                    ;
                    Some(quotient + 1)
                }
            }
        },
        _ => None,
    }
}

/// Tells whether two amounts differ by at most one.
pub fn close(a: u128, b: u128) -> (r: bool)
    ensures
        r == differ_by_at_most_one(a, b),
{
    if a >= b {
        a - b <= 1
    } else {
        b - a <= 1
    }
}

} // verus!
