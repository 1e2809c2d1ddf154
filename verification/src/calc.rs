use vstd::prelude::*;

use crate::error::Error;

verus! {

/// `amount * numerator / denominator` over the mathematical integers, with a
/// zero denominator passing `amount` through unchanged.
pub open spec fn proportional_value(amount: int, numerator: int, denominator: int) -> int {
    if denominator == 0 {
        amount
    } else {
        amount * numerator / denominator
    }
}

/// Exact `amount * numerator / denominator` through a double-width
/// intermediate. A zero denominator returns `amount` unchanged (the defined
/// escape for a pool with no issued shares); a quotient that does not fit
/// back into `u64` is an error, never a wrap.
pub fn proportional(amount: u64, numerator: u64, denominator: u64) -> (result: Result<u64, Error>)
    ensures
        result is Ok <==> proportional_value(
            amount as int,
            numerator as int,
            denominator as int,
        ) <= u64::MAX,
        result is Ok ==> result->Ok_0 == proportional_value(
            amount as int,
            numerator as int,
            denominator as int,
        ),
        result is Err ==> result->Err_0 == Error::CalculationError,
{
    if denominator == 0 {
        return Ok(amount);
    }
    proof {
        assert((amount as int) * (numerator as int) <= u128::MAX) by (nonlinear_arith)
            requires
                amount <= u64::MAX,
                numerator <= u64::MAX,
        ;
    }
    let quotient: u128 = (amount as u128) * (numerator as u128) / (denominator as u128);
    if quotient > u64::MAX as u128 {
        Err(Error::CalculationError)
    } else {
        Ok(quotient as u64)
    }
}

/// The token value of `shares` LP shares, pro rata out of `total_shares`
/// shares backed by `total_value` tokens.
pub fn value_from_shares(shares: u64, total_value: u64, total_shares: u64) -> (result: Result<
    u64,
    Error,
>)
    ensures
        result is Ok <==> proportional_value(
            shares as int,
            total_value as int,
            total_shares as int,
        ) <= u64::MAX,
        result is Ok ==> result->Ok_0 == proportional_value(
            shares as int,
            total_value as int,
            total_shares as int,
        ),
        result is Err ==> result->Err_0 == Error::CalculationError,
{
    proportional(shares, total_value, total_shares)
}

} // verus!
