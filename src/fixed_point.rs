//! Fixed-point primitives over `u128` values scaled by `SCALE`.
//!
//! Two overflow policies live side by side: `mul_div_saturating` clamps an
//! oversized product to `u128::MAX`, while `mul_div_checked` reports it.
//! Both reject a zero denominator.
use vstd::prelude::*;

verus! {

/// The fixed-point unit: `SCALE` stands for 1.0.
pub const SCALE: u128 = 1_000_000_000_000_000_000;

/// Errors of the arithmetic primitives.
#[derive(Debug, Clone, Copy, PartialEq, Eq, Structural)]
pub enum ArithmeticError {
    DivisionByZero,
    Overflow,
}

/// `x` clamped to the largest `u128`.
pub open spec fn saturate(x: int) -> int {
    if x > u128::MAX as int { u128::MAX as int } else { x }
}

/// The saturating product of two `u128` values.
pub open spec fn saturating_mul_spec(a: int, b: int) -> int {
    saturate(a * b)
}

/// Multiplies `a` by `b`, clamping on overflow.
pub fn saturating_mul(a: u128, b: u128) -> (r: u128)
    ensures
        r as int == saturating_mul_spec(a as int, b as int),
{
    match a.checked_mul(b) {
        Some(p) => p,
        None => u128::MAX,
    }
}

/// `a * b / d`, with the product clamped to `u128::MAX`; fails only on a
/// zero denominator.
pub fn mul_div_saturating(a: u128, b: u128, d: u128) -> (r: Result<u128, ArithmeticError>)
    ensures
        d == 0 ==> r == Err::<u128, ArithmeticError>(ArithmeticError::DivisionByZero),
        d != 0 ==> r == Ok::<u128, ArithmeticError>(
            (saturating_mul_spec(a as int, b as int) / (d as int)) as u128,
        ),
{
    if d == 0 {
        return Err(ArithmeticError::DivisionByZero);
    }
    let p = saturating_mul(a, b);
    Ok(p / d)
}

/// `a * b / d`, failing on a zero denominator or when `a * b` does not fit.
pub fn mul_div_checked(a: u128, b: u128, d: u128) -> (r: Result<u128, ArithmeticError>)
    ensures
        d == 0 ==> r == Err::<u128, ArithmeticError>(ArithmeticError::DivisionByZero),
        d != 0 && a as int * b as int > u128::MAX ==> r == Err::<u128, ArithmeticError>(
            ArithmeticError::Overflow,
        ),
        d != 0 && a as int * b as int <= u128::MAX ==> r == Ok::<u128, ArithmeticError>(
            (a as int * b as int / d as int) as u128,
        ),
{
    if d == 0 {
        return Err(ArithmeticError::DivisionByZero);
    }
    match a.checked_mul(b) {
        Some(p) => Ok(p / d),
        None => Err(ArithmeticError::Overflow),
    }
}

} // verus!
