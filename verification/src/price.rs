use vstd::prelude::*;

use crate::error::Error;
use crate::pool_error;

verus! {

/// Points per whole unit: prices are fixed-point values scaled by 100.
pub const PRICE_SCALE: u64 = 100;

/// A fixed-point exchange rate between the token and the staked token,
/// stored once as `real rate * 100` and never mutated.
#[derive(Clone, Copy, Debug, PartialEq, Eq, Structural)]
pub struct Price(pub u64);

/// True when `e` reports an unscaled price that does not fit the fixed-point
/// range.
pub open spec fn is_price_conversion_failure(e: Error) -> bool {
    match e {
        Error::LpPool(pool_error::Error::PriceConversionFailure { .. }) => true,
        _ => false,
    }
}

impl Price {
    /// Scales a whole-unit price into points, rejecting a value whose scaled
    /// form does not fit in `u64`.
    pub fn try_from(price_without_scale: u64) -> (result: Result<Price, Error>)
        ensures
            result is Ok <==> price_without_scale * PRICE_SCALE <= u64::MAX,
            result is Ok ==> result->Ok_0.0 == price_without_scale * PRICE_SCALE,
            result is Err ==> is_price_conversion_failure(result->Err_0),
    {
        match price_without_scale.checked_mul(PRICE_SCALE) {
            Some(points) => Ok(Price(points)),
            None => Err(
                Error::LpPool(
                    pool_error::Error::PriceConversionFailure {
                        converted_from: decimal_text(price_without_scale),
                    },
                ),
            ),
        }
    }

    /// Wraps an already scaled point count.
    pub fn from_points(points: u64) -> (result: Price)
        ensures
            result.0 == points,
    {
        Price(points)
    }

    /// Values a staked-token lamport count in token lamports at this price.
    pub fn mul_by_price(self, lamports: u64) -> (result: Result<u64, Error>)
        ensures
            result is Ok <==> lamports * self.0 <= u64::MAX,
            result is Ok ==> result->Ok_0 == lamports * self.0,
            result is Err ==> result->Err_0 == Error::CalculationError,
    {
        match lamports.checked_mul(self.0) {
            Some(value) => Ok(value),
            None => Err(Error::CalculationError),
        }
    }

    /// Values a token lamport count in staked-token lamports at this price.
    /// A zero price cannot divide and is an error.
    pub fn div_by_price(self, lamports: u64) -> (result: Result<u64, Error>)
        ensures
            result is Ok <==> self.0 > 0,
            result is Ok ==> result->Ok_0 == lamports as int / self.0 as int,
            result is Err ==> result->Err_0 == Error::CalculationError,
    {
        if self.0 == 0 {
            Err(Error::CalculationError)
        } else {
            Ok(lamports / self.0)
        }
    }
}

/// Relies on `format!` (core::fmt's decimal rendering of `u64`) for the text
/// carried inside a price-conversion error; nothing is claimed about it.
#[verifier::external_body]
fn decimal_text(value: u64) -> String {
    format!("{}", value)
}

} // verus!
