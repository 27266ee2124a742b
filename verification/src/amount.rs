//! Decimal amounts: prices, discounts, balances and ratings.
//!
//! An amount is held as a mantissa and a scale. The arithmetic is that of
//! `rust_decimal`, which rounds and rescales by rules of its own.

use vstd::prelude::*;

verus! {

/// A decimal number: `mantissa` divided by ten to the power `scale`.
#[derive(Debug, Clone, Copy, PartialEq, Eq, Structural)]
pub struct Amount {
    pub mantissa: i128,
    pub scale: u32,
}

/// Largest number of decimal places an amount can have.
pub const MAX_SCALE: u32 = 28;

/// Bound on the magnitude of a mantissa: two to the power 96.
pub const MANTISSA_LIMIT: i128 = 0x1_0000_0000_0000_0000_0000_0000;

impl Amount {
    /// An amount is well formed when its mantissa fits 96 bits and its scale
    /// is at most `MAX_SCALE`.
    pub open spec fn wf(self) -> bool {
        &&& -MANTISSA_LIMIT < self.mantissa < MANTISSA_LIMIT
        &&& self.scale <= MAX_SCALE
    }

    /// Zero, with no decimal places.
    pub fn zero() -> (amount: Amount)
        ensures
            amount.wf(),
            amount.mantissa == 0,
            amount.scale == 0,
    {
        Amount { mantissa: 0, scale: 0 }
    }

    /// Decides whether the amount is well formed.
    pub fn is_wf(self) -> (ok: bool)
        ensures
            ok == self.wf(),
    {
        -MANTISSA_LIMIT < self.mantissa && self.mantissa < MANTISSA_LIMIT && self.scale
            <= MAX_SCALE
    }
}

/// The difference of two decimals as `rust_decimal` computes it, as a
/// mantissa and a scale: absent where an operand is no decimal or the
/// result overflows.
pub uninterp spec fn decimal_difference(
    left_mantissa: i128,
    left_scale: u32,
    right_mantissa: i128,
    right_scale: u32,
) -> Option<(i128, u32)>;

/// The product of two decimals as `rust_decimal` computes it.
pub uninterp spec fn decimal_product(
    left_mantissa: i128,
    left_scale: u32,
    right_mantissa: i128,
    right_scale: u32,
) -> Option<(i128, u32)>;

/// The quotient of two decimals as `rust_decimal` computes it: absent also
/// where the divisor is zero.
pub uninterp spec fn decimal_quotient(
    left_mantissa: i128,
    left_scale: u32,
    right_mantissa: i128,
    right_scale: u32,
) -> Option<(i128, u32)>;

/// An amount from a mantissa and a scale where there is one.
pub open spec fn amount_of(parts: Option<(i128, u32)>) -> Option<Amount> {
    match parts {
        Some((mantissa, scale)) => Some(Amount { mantissa, scale }),
        None => None,
    }
}

/// Trusted: `Decimal::checked_sub`, on operands built by
/// `Decimal::try_from_i128_with_scale` and with the result read back by
/// `mantissa` and `scale`. The result is the value named
/// `decimal_difference`.
#[verifier::external_body]
fn decimal_sub(left: Amount, right: Amount) -> (difference: Option<Amount>)
    ensures
        difference == amount_of(
            decimal_difference(left.mantissa, left.scale, right.mantissa, right.scale),
        ),
{
    let a = rust_decimal::Decimal::try_from_i128_with_scale(left.mantissa, left.scale).ok()?;
    let b = rust_decimal::Decimal::try_from_i128_with_scale(right.mantissa, right.scale).ok()?;
    let result = a.checked_sub(b)?;
    Some(Amount { mantissa: result.mantissa(), scale: result.scale() })
}

/// Trusted: `Decimal::checked_mul`, on operands built and a result read as
/// in `decimal_sub`. The result is the value named `decimal_product`.
#[verifier::external_body]
fn decimal_mul(left: Amount, right: Amount) -> (product: Option<Amount>)
    ensures
        product == amount_of(
            decimal_product(left.mantissa, left.scale, right.mantissa, right.scale),
        ),
{
    let a = rust_decimal::Decimal::try_from_i128_with_scale(left.mantissa, left.scale).ok()?;
    let b = rust_decimal::Decimal::try_from_i128_with_scale(right.mantissa, right.scale).ok()?;
    let result = a.checked_mul(b)?;
    Some(Amount { mantissa: result.mantissa(), scale: result.scale() })
}

/// Trusted: `Decimal::checked_div`, on operands built and a result read as
/// in `decimal_sub`. The result is the value named `decimal_quotient`.
#[verifier::external_body]
fn decimal_div(left: Amount, right: Amount) -> (quotient: Option<Amount>)
    ensures
        quotient == amount_of(
            decimal_quotient(left.mantissa, left.scale, right.mantissa, right.scale),
        ),
{
    let a = rust_decimal::Decimal::try_from_i128_with_scale(left.mantissa, left.scale).ok()?;
    let b = rust_decimal::Decimal::try_from_i128_with_scale(right.mantissa, right.scale).ok()?;
    let result = a.checked_div(b)?;
    Some(Amount { mantissa: result.mantissa(), scale: result.scale() })
}

/// The price after a discount in percent: `price * (1 - discount / 100)`.
/// Absent where a step of the arithmetic has no result.
pub open spec fn discounted(price: Amount, discount: Amount) -> Option<Amount> {
    match amount_of(decimal_quotient(discount.mantissa, discount.scale, 100, 0)) {
        Some(rate) => match amount_of(decimal_difference(1, 0, rate.mantissa, rate.scale)) {
            Some(factor) => amount_of(
                decimal_product(price.mantissa, price.scale, factor.mantissa, factor.scale),
            ),
            None => None,
        },
        None => None,
    }
}

/// Computes the price after a discount in percent.
pub fn discounted_price(price: Amount, discount: Amount) -> (result: Option<Amount>)
    ensures
        result == discounted(price, discount),
{
    let hundred = Amount { mantissa: 100, scale: 0 };
    let one = Amount { mantissa: 1, scale: 0 };
    match decimal_div(discount, hundred) {
        Some(rate) => match decimal_sub(one, rate) {
            Some(factor) => decimal_mul(price, factor),
            None => None,
        },
        None => None,
    }
}

} // verus!
