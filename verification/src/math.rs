//! Exact-precision amounts: whole token units as `u128`, and fixed-point
//! decimals with eighteen fractional digits.
//!
//! Sums and differences are computed here. Products and quotients, which need
//! a 256-bit intermediate value, and the decimal notation of a value are
//! computed by `cosmwasm_std`.

use vstd::prelude::*;

verus! {

/// The number of atomic units in one whole unit of a [`Decimal`].
pub const DECIMAL_FRACTIONAL: u128 = 1_000_000_000_000_000_000u128;

/// The decimal notation that `cosmwasm_std` gives a `Decimal` of the given atomics.
pub uninterp spec fn decimal_text(atomics: u128) -> Seq<char>;

/// The character that stands for a digit from zero to nine.
pub open spec fn digit_char(digit: nat) -> char {
    if digit == 0 {
        '0'
    } else if digit == 1 {
        '1'
    } else if digit == 2 {
        '2'
    } else if digit == 3 {
        '3'
    } else if digit == 4 {
        '4'
    } else if digit == 5 {
        '5'
    } else if digit == 6 {
        '6'
    } else if digit == 7 {
        '7'
    } else if digit == 8 {
        '8'
    } else {
        '9'
    }
}

/// The decimal digits of a number, the highest first and none of them a
/// leading zero; the one digit `0` for zero.
pub open spec fn decimal_digits(value: nat) -> Seq<char>
    decreases value,
{
    if value < 10 {
        seq![digit_char(value)]
    } else {
        decimal_digits(value / 10).push(digit_char(value % 10))
    }
}

/// The decimal notation of a whole amount: its decimal digits.
pub open spec fn amount_text(value: u128) -> Seq<char> {
    decimal_digits(value as nat)
}

/// `a * b / 10^18`, rounded down: the atomics of the product of two decimals,
/// and the whole units of an amount times a decimal.
pub open spec fn mul_floor_spec(a: int, b: int) -> int {
    a * b / (DECIMAL_FRACTIONAL as int)
}

/// [`mul_floor_spec`] where it fits in 128 bits, nothing where it does not.
pub open spec fn checked_mul_floor_spec(a: u128, b: u128) -> Option<u128> {
    if mul_floor_spec(a as int, b as int) <= u128::MAX {
        Some(mul_floor_spec(a as int, b as int) as u128)
    } else {
        None
    }
}

/// `numerator * 10^18 / denominator`, rounded down: the atomics of a ratio.
pub open spec fn ratio_spec(numerator: int, denominator: int) -> int {
    numerator * (DECIMAL_FRACTIONAL as int) / denominator
}

/// [`ratio_spec`] where the denominator is not zero and the value fits in 128
/// bits, nothing otherwise.
pub open spec fn checked_ratio_spec(numerator: u128, denominator: u128) -> Option<u128> {
    if denominator == 0 {
        None
    } else if ratio_spec(numerator as int, denominator as int) <= u128::MAX {
        Some(ratio_spec(numerator as int, denominator as int) as u128)
    } else {
        None
    }
}

/// `units * atomics` where it fits in 128 bits, nothing where it does not.
pub open spec fn checked_units_spec(units: u128, atomics: u128) -> Option<u128> {
    if units * atomics <= u128::MAX {
        Some((units * atomics) as u128)
    } else {
        None
    }
}

/// Calls `cosmwasm_std::Decimal::checked_mul` on two decimals given by their
/// atomics. Trusted: the result is the product of the atomics divided by 10^18
/// and rounded down, and is absent exactly when that value exceeds 128 bits.
#[verifier::external_body]
fn outside_decimal_mul(a: u128, b: u128) -> (r: Option<u128>)
    ensures
        r == checked_mul_floor_spec(a, b),
{
    match cosmwasm_std::Decimal::raw(a).checked_mul(cosmwasm_std::Decimal::raw(b)) {
        Ok(product) => Some(product.atomics().u128()),
        Err(_) => None,
    }
}

/// Calls `cosmwasm_std::Uint128::checked_mul_floor` with a decimal given by its
/// atomics. Trusted: the result is the amount times the atomics divided by
/// 10^18 and rounded down, and is absent exactly when that value exceeds 128
/// bits.
#[verifier::external_body]
fn outside_mul_floor(amount: u128, atomics: u128) -> (r: Option<u128>)
    ensures
        r == checked_mul_floor_spec(amount, atomics),
{
    match cosmwasm_std::Uint128::new(amount).checked_mul_floor(cosmwasm_std::Decimal::raw(atomics)) {
        Ok(units) => Some(units.u128()),
        Err(_) => None,
    }
}

/// Calls `cosmwasm_std::Decimal::checked_from_ratio`. Trusted: the result is
/// the numerator times 10^18 divided by the denominator and rounded down; it
/// is absent exactly when the denominator is zero or that value exceeds 128
/// bits.
#[verifier::external_body]
fn outside_from_ratio(numerator: u128, denominator: u128) -> (r: Option<u128>)
    ensures
        r == checked_ratio_spec(numerator, denominator),
{
    match cosmwasm_std::Decimal::checked_from_ratio(numerator, denominator) {
        Ok(ratio) => Some(ratio.atomics().u128()),
        Err(_) => None,
    }
}

/// Calls `to_string` on a `cosmwasm_std::Decimal`. Trusted: the text is a
/// function of the atomics alone, named [`decimal_text`].
#[verifier::external_body]
fn outside_decimal_text(atomics: u128) -> (r: String)
    ensures
        r@ == decimal_text(atomics),
{
    cosmwasm_std::Decimal::raw(atomics).to_string()
}

/// Calls `to_string` on a `cosmwasm_std::Uint128`, which writes the number as
/// the standard library writes a `u128`. Trusted: the text is the decimal
/// digits of the value, without sign, separators or leading zeros.
#[verifier::external_body]
fn outside_amount_text(value: u128) -> (r: String)
    ensures
        r@ == amount_text(value),
{
    cosmwasm_std::Uint128::new(value).to_string()
}

/// A non-negative fixed-point number with eighteen fractional digits, held as
/// its count of atomic units: `Decimal { atomics: 10^18 }` is one.
#[derive(Clone, Copy, Debug, PartialEq, Eq, Structural)]
pub struct Decimal {
    pub atomics: u128,
}

impl Decimal {
    /// The decimal with the given number of atomic units.
    pub fn raw(atomics: u128) -> (r: Decimal)
        ensures
            r.atomics == atomics,
    {
        Decimal { atomics }
    }

    /// Zero.
    pub fn zero() -> (r: Decimal)
        ensures
            r.atomics == 0,
    {
        Decimal { atomics: 0 }
    }

    /// One.
    pub fn one() -> (r: Decimal)
        ensures
            r.atomics == DECIMAL_FRACTIONAL,
    {
        Decimal { atomics: DECIMAL_FRACTIONAL }
    }

    /// The sum, or nothing where it exceeds the largest decimal.
    pub fn checked_add(self, other: Decimal) -> (r: Option<Decimal>)
        ensures
            r == if self.atomics + other.atomics <= u128::MAX {
                Some(Decimal { atomics: (self.atomics + other.atomics) as u128 })
            } else {
                None
            },
    {
        match self.atomics.checked_add(other.atomics) {
            Some(atomics) => Some(Decimal { atomics }),
            None => None,
        }
    }

    /// The difference, or nothing where `other` is the larger.
    pub fn checked_sub(self, other: Decimal) -> (r: Option<Decimal>)
        ensures
            r == if other.atomics <= self.atomics {
                Some(Decimal { atomics: (self.atomics - other.atomics) as u128 })
            } else {
                None
            },
    {
        match self.atomics.checked_sub(other.atomics) {
            Some(atomics) => Some(Decimal { atomics }),
            None => None,
        }
    }

    /// The product of two decimals, rounded down to the eighteenth digit, or
    /// nothing where it exceeds the largest decimal.
    pub fn checked_mul(self, other: Decimal) -> (r: Option<Decimal>)
        ensures
            r == match checked_mul_floor_spec(self.atomics, other.atomics) {
                Some(atomics) => Some(Decimal { atomics }),
                None => None,
            },
    {
        match outside_decimal_mul(self.atomics, other.atomics) {
            Some(atomics) => Some(Decimal { atomics }),
            None => None,
        }
    }

    /// This decimal taken `units` times, exactly, or nothing where it exceeds
    /// the largest decimal.
    pub fn checked_mul_units(self, units: u128) -> (r: Option<Decimal>)
        ensures
            r == match checked_units_spec(units, self.atomics) {
                Some(atomics) => Some(Decimal { atomics }),
                None => None,
            },
    {
        match units.checked_mul(self.atomics) {
            Some(atomics) => Some(Decimal { atomics }),
            None => None,
        }
    }

    /// `numerator / denominator` rounded down to the eighteenth digit, or
    /// nothing where the denominator is zero or the ratio exceeds the largest
    /// decimal.
    pub fn checked_from_ratio(numerator: u128, denominator: u128) -> (r: Option<Decimal>)
        ensures
            r == match checked_ratio_spec(numerator, denominator) {
                Some(atomics) => Some(Decimal { atomics }),
                None => None,
            },
    {
        match outside_from_ratio(numerator, denominator) {
            Some(atomics) => Some(Decimal { atomics }),
            None => None,
        }
    }

    /// The whole units in `amount` times this decimal, rounded down, or
    /// nothing where they exceed 128 bits.
    pub fn checked_mul_floor(self, amount: u128) -> (r: Option<u128>)
        ensures
            r == checked_mul_floor_spec(amount, self.atomics),
    {
        outside_mul_floor(amount, self.atomics)
    }

    /// The decimal notation of this value.
    pub fn to_text(self) -> (r: String)
        ensures
            r@ == decimal_text(self.atomics),
    {
        outside_decimal_text(self.atomics)
    }
}

/// The decimal notation of a whole amount.
pub fn amount_to_text(value: u128) -> (r: String)
    ensures
        r@ == amount_text(value),
{
    outside_amount_text(value)
}

} // verus!
