//! Fixed-point decimals with eighteen fractional digits, and their checked
//! arithmetic: every operation rounds down and fails rather than wraps.

use vstd::prelude::*;
use crate::error::MintError;

verus! {

/// Atomic units in one whole: a decimal carries eighteen fractional digits.
pub const FRACTIONAL: u128 = 1_000_000_000_000_000_000;

/// A non-negative fixed-point number, held as a count of atomic units.
/// Its value is `atomics / FRACTIONAL`.
#[derive(Clone, Copy, Debug, PartialEq, Eq, Structural)]
pub struct Decimal {
    pub atomics: u128,
}

/// Why a ratio could not be computed.
#[derive(Clone, Copy, Debug, PartialEq, Eq, Structural)]
pub enum RatioError {
    DivideByZero,
    Overflow,
}

/// `a * n / d`, rounded down.
pub open spec fn ratio_floor(a: int, n: int, d: int) -> int {
    (a * n) / d
}

/// `a * n / d` rounded down, where the denominator is not zero and the
/// quotient fits in 128 bits.
pub open spec fn checked_ratio(a: u128, n: u128, d: u128) -> Result<u128, RatioError> {
    if d == 0 {
        Err(RatioError::DivideByZero)
    } else if ratio_floor(a as int, n as int, d as int) > u128::MAX {
        Err(RatioError::Overflow)
    } else {
        Ok(ratio_floor(a as int, n as int, d as int) as u128)
    }
}

/// The error of the library that stands for a failed ratio.
pub open spec fn ratio_error(e: RatioError) -> MintError {
    match e {
        RatioError::DivideByZero => MintError::DivideByZero,
        RatioError::Overflow => MintError::Overflow,
    }
}

/// An amount times a decimal, rounded down to a whole amount.
pub open spec fn scale_spec(amount: u128, d: Decimal) -> Result<u128, MintError> {
    match checked_ratio(amount, d.atomics, FRACTIONAL) {
        Ok(v) => Ok(v),
        Err(e) => Err(ratio_error(e)),
    }
}

/// The decimal `numerator / denominator`, rounded down to the last fractional digit.
pub open spec fn from_ratio_spec(numerator: u128, denominator: u128) -> Result<Decimal, MintError> {
    match checked_ratio(numerator, FRACTIONAL, denominator) {
        Ok(v) => Ok(Decimal { atomics: v }),
        Err(e) => Err(ratio_error(e)),
    }
}

/// The quotient of two decimals, rounded down to the last fractional digit.
pub open spec fn division_spec(a: Decimal, b: Decimal) -> Result<Decimal, MintError> {
    from_ratio_spec(a.atomics, b.atomics)
}

/// The product of two decimals, rounded down to the last fractional digit.
pub open spec fn multiplication_spec(a: Decimal, b: Decimal) -> Result<Decimal, MintError> {
    match checked_ratio(a.atomics, b.atomics, FRACTIONAL) {
        Ok(v) => Ok(Decimal { atomics: v }),
        Err(e) => Err(ratio_error(e)),
    }
}

/// The difference of two decimals, which is never negative.
pub open spec fn subtraction_spec(a: Decimal, b: Decimal) -> Result<Decimal, MintError> {
    if a.atomics < b.atomics {
        Err(MintError::Underflow)
    } else {
        Ok(Decimal { atomics: (a.atomics - b.atomics) as u128 })
    }
}

/// Calls `cosmwasm_std::Uint128::checked_multiply_ratio`, which multiplies in
/// 256 bits and divides. Claimed of it: a zero denominator is reported as
/// such; otherwise the result is `a * numerator / denominator` rounded down,
/// or an overflow where that does not fit in 128 bits.
#[verifier::external_body]
fn multiply_ratio(a: u128, numerator: u128, denominator: u128) -> (r: Result<u128, RatioError>)
    ensures
        r == checked_ratio(a, numerator, denominator),
{
    match cosmwasm_std::Uint128::new(a).checked_multiply_ratio(numerator, denominator) {
        Ok(v) => Ok(v.u128()),
        Err(cosmwasm_std::CheckedMultiplyRatioError::DivideByZero) => Err(RatioError::DivideByZero),
        Err(cosmwasm_std::CheckedMultiplyRatioError::Overflow) => Err(RatioError::Overflow),
    }
}

/// Calls `cosmwasm_std::Decimal::checked_from_ratio` and hands back the
/// atomic units of the decimal. Claimed of it: a zero denominator is reported
/// as such; otherwise the units are `numerator * FRACTIONAL / denominator`
/// rounded down, or an overflow where that does not fit in 128 bits.
#[verifier::external_body]
fn ratio_atomics(numerator: u128, denominator: u128) -> (r: Result<u128, RatioError>)
    ensures
        r == checked_ratio(numerator, FRACTIONAL, denominator),
{
    match cosmwasm_std::Decimal::checked_from_ratio(numerator, denominator) {
        Ok(v) => Ok(v.atomics().u128()),
        Err(cosmwasm_std::CheckedFromRatioError::DivideByZero) => Err(RatioError::DivideByZero),
        Err(cosmwasm_std::CheckedFromRatioError::Overflow) => Err(RatioError::Overflow),
    }
}

/// The error of the library that stands for a failed ratio.
fn map_ratio_error(e: RatioError) -> (r: MintError)
    ensures
        r == ratio_error(e),
{
    match e {
        RatioError::DivideByZero => MintError::DivideByZero,
        RatioError::Overflow => MintError::Overflow,
    }
}

impl Decimal {
    /// The decimal with the given count of atomic units.
    pub fn raw(atomics: u128) -> (r: Decimal)
        ensures
            r.atomics == atomics,
    {
        Decimal { atomics }
    }

    /// The decimal 0.
    pub fn zero() -> (r: Decimal)
        ensures
            r.atomics == 0,
    {
        Decimal { atomics: 0 }
    }

    /// `percent / 100`.
    pub fn percent(percent: u64) -> (r: Decimal)
        ensures
            r.atomics == percent * (FRACTIONAL / 100),
    {
        Decimal { atomics: (percent as u128) * 10_000_000_000_000_000 }
    }

    /// `permille / 1000`.
    pub fn permille(permille: u64) -> (r: Decimal)
        ensures
            r.atomics == permille * (FRACTIONAL / 1000),
    {
        Decimal { atomics: (permille as u128) * 1_000_000_000_000_000 }
    }

    /// The decimal 1.
    pub fn one() -> (r: Decimal)
        ensures
            r.atomics == FRACTIONAL,
    {
        Decimal { atomics: FRACTIONAL }
    }

    /// The count of atomic units.
    pub fn atomics(&self) -> (r: u128)
        ensures
            r == self.atomics,
    {
        self.atomics
    }

    /// Whether the decimal is 0.
    pub fn is_zero(&self) -> (r: bool)
        ensures
            r == (self.atomics == 0),
    {
        self.atomics == 0
    }

    /// Whether `self` is strictly less than `other`.
    pub fn less_than(&self, other: &Decimal) -> (r: bool)
        ensures
            r == (self.atomics < other.atomics),
    {
        self.atomics < other.atomics
    }

    /// The decimal `numerator / denominator`, rounded down.
    pub fn from_ratio(numerator: u128, denominator: u128) -> (r: Result<Decimal, MintError>)
        ensures
            r == from_ratio_spec(numerator, denominator),
    {
        match ratio_atomics(numerator, denominator) {
            Ok(v) => Ok(Decimal { atomics: v }),
            Err(e) => Err(map_ratio_error(e)),
        }
    }
}

/// `amount * d`, rounded down to a whole amount.
pub fn scale(amount: u128, d: Decimal) -> (r: Result<u128, MintError>)
    ensures
        r == scale_spec(amount, d),
{
    match multiply_ratio(amount, d.atomics, FRACTIONAL) {
        Ok(v) => Ok(v),
        Err(e) => Err(map_ratio_error(e)),
    }
}

/// `a / b`: fails on a zero divisor, else rounds down to the last fractional digit.
pub fn decimal_division(a: Decimal, b: Decimal) -> (r: Result<Decimal, MintError>)
    ensures
        r == division_spec(a, b),
        b.atomics == 0 ==> r == Err::<Decimal, MintError>(MintError::DivideByZero),
{
    Decimal::from_ratio(a.atomics, b.atomics)
}

/// `a * b`, rounded down to the last fractional digit.
pub fn decimal_multiplication(a: Decimal, b: Decimal) -> (r: Result<Decimal, MintError>)
    ensures
        r == multiplication_spec(a, b),
{
    match multiply_ratio(a.atomics, b.atomics, FRACTIONAL) {
        Ok(v) => Ok(Decimal { atomics: v }),
        Err(e) => Err(map_ratio_error(e)),
    }
}

/// `a - b`: fails where the result would be negative.
pub fn decimal_subtraction(a: Decimal, b: Decimal) -> (r: Result<Decimal, MintError>)
    ensures
        r == subtraction_spec(a, b),
{
    if a.atomics < b.atomics {
        Err(MintError::Underflow)
    } else {
        Ok(Decimal { atomics: a.atomics - b.atomics })
    }
}

/// `1 / d`.
pub fn reverse_decimal(d: Decimal) -> (r: Result<Decimal, MintError>)
    ensures
        r == division_spec(Decimal { atomics: FRACTIONAL }, d),
{
    decimal_division(Decimal::one(), d)
}

/// The smaller of two decimals.
pub fn decimal_min(a: Decimal, b: Decimal) -> (r: Decimal)
    ensures
        r == if a.atomics < b.atomics { a } else { b },
{
    if a.atomics < b.atomics {
        a
    } else {
        b
    }
}

} // verus!
