use vstd::prelude::*;

use crate::error::Error;
use crate::fee::{fee_applied, fee_taken, Fee};
use crate::price::Price;

verus! {

/// A token reserve quantity, counted in lamports.
#[derive(Clone, Copy, Debug, PartialEq, Eq, Structural)]
pub struct TokenAmount(pub u64);

/// An LP share quantity, counted in lamports.
#[derive(Clone, Copy, Debug, PartialEq, Eq, Structural)]
pub struct LpTokenAmount(pub u64);

/// A staked-token quantity, counted in lamports.
#[derive(Clone, Copy, Debug, PartialEq, Eq, Structural)]
pub struct StakedTokenAmount(pub u64);

impl TokenAmount {
    pub fn from_lamports(amount: u64) -> (result: TokenAmount)
        ensures
            result.0 == amount,
    {
        TokenAmount(amount)
    }

    /// Values staked tokens in token lamports at the given price.
    pub fn from_staked_tokens(staked_tokens: StakedTokenAmount, price: Price) -> (result: Result<
        TokenAmount,
        Error,
    >)
        ensures
            result is Ok <==> staked_tokens.0 * price.0 <= u64::MAX,
            result is Ok ==> result->Ok_0.0 == staked_tokens.0 * price.0,
            result is Err ==> result->Err_0 == Error::CalculationError,
    {
        match price.mul_by_price(staked_tokens.0) {
            Ok(value) => Ok(TokenAmount(value)),
            Err(e) => Err(e),
        }
    }

    /// Checked addition: overflow is an error, never a wrap.
    pub fn add(self, rhs: TokenAmount) -> (result: Result<TokenAmount, Error>)
        ensures
            result is Ok <==> self.0 + rhs.0 <= u64::MAX,
            result is Ok ==> result->Ok_0.0 == self.0 + rhs.0,
            result is Err ==> result->Err_0 == Error::CalculationError,
    {
        match self.0.checked_add(rhs.0) {
            Some(value) => Ok(TokenAmount(value)),
            None => Err(Error::CalculationError),
        }
    }

    /// Checked subtraction: underflow is an error, never a wrap.
    pub fn sub(self, rhs: TokenAmount) -> (result: Result<TokenAmount, Error>)
        ensures
            result is Ok <==> rhs.0 <= self.0,
            result is Ok ==> result->Ok_0.0 == self.0 - rhs.0,
            result is Err ==> result->Err_0 == Error::CalculationError,
    {
        match self.0.checked_sub(rhs.0) {
            Some(value) => Ok(TokenAmount(value)),
            None => Err(Error::CalculationError),
        }
    }

    /// Checked division: a zero divisor is an error.
    pub fn div(self, rhs: TokenAmount) -> (result: Result<TokenAmount, Error>)
        ensures
            result is Ok <==> rhs.0 > 0,
            result is Ok ==> result->Ok_0.0 == self.0 as int / rhs.0 as int,
            result is Err ==> result->Err_0 == Error::CalculationError,
    {
        match self.0.checked_div(rhs.0) {
            Some(value) => Ok(TokenAmount(value)),
            None => Err(Error::CalculationError),
        }
    }
}

impl LpTokenAmount {
    pub fn from_lamports(lamports: u64) -> (result: LpTokenAmount)
        ensures
            result.0 == lamports,
    {
        LpTokenAmount(lamports)
    }

    /// Mints shares one for one with a token amount.
    pub fn from_tokens(amount: TokenAmount) -> (result: LpTokenAmount)
        ensures
            result.0 == amount.0,
    {
        LpTokenAmount(amount.0)
    }

    /// Mints shares one for one with what is left of a token amount after the
    /// fee is deducted.
    pub fn from_tokens_with_fee(amount: TokenAmount, fee: Fee) -> (result: Result<
        LpTokenAmount,
        Error,
    >)
        ensures
            result is Ok <==> fee_taken(amount.0 as int, fee.basis_points as int) <= amount.0,
            result is Ok ==> result->Ok_0.0 == fee_applied(
                amount.0 as int,
                fee.basis_points as int,
            ),
            result is Err ==> result->Err_0 == Error::CalculationError,
    {
        match fee.apply(amount.0) {
            Ok(value) => Ok(LpTokenAmount(value)),
            Err(e) => Err(e),
        }
    }

    /// Checked addition: overflow is an error, never a wrap.
    pub fn add(self, rhs: LpTokenAmount) -> (result: Result<LpTokenAmount, Error>)
        ensures
            result is Ok <==> self.0 + rhs.0 <= u64::MAX,
            result is Ok ==> result->Ok_0.0 == self.0 + rhs.0,
            result is Err ==> result->Err_0 == Error::CalculationError,
    {
        match self.0.checked_add(rhs.0) {
            Some(value) => Ok(LpTokenAmount(value)),
            None => Err(Error::CalculationError),
        }
    }

    /// Checked subtraction: underflow is an error, never a wrap.
    pub fn sub(self, rhs: LpTokenAmount) -> (result: Result<LpTokenAmount, Error>)
        ensures
            result is Ok <==> rhs.0 <= self.0,
            result is Ok ==> result->Ok_0.0 == self.0 - rhs.0,
            result is Err ==> result->Err_0 == Error::CalculationError,
    {
        match self.0.checked_sub(rhs.0) {
            Some(value) => Ok(LpTokenAmount(value)),
            None => Err(Error::CalculationError),
        }
    }
}

impl StakedTokenAmount {
    pub fn from_lamports(lamports: u64) -> (result: StakedTokenAmount)
        ensures
            result.0 == lamports,
    {
        StakedTokenAmount(lamports)
    }

    /// Converts a token amount into staked tokens across the price boundary.
    pub fn from_tokens(amount: TokenAmount, price: Price) -> (result: Result<
        StakedTokenAmount,
        Error,
    >)
        ensures
            result is Ok <==> price.0 > 0,
            result is Ok ==> result->Ok_0.0 == amount.0 as int / price.0 as int,
            result is Err ==> result->Err_0 == Error::CalculationError,
    {
        match price.div_by_price(amount.0) {
            Ok(value) => Ok(StakedTokenAmount(value)),
            Err(e) => Err(e),
        }
    }

    /// Checked addition: overflow is an error, never a wrap.
    pub fn add(self, rhs: StakedTokenAmount) -> (result: Result<StakedTokenAmount, Error>)
        ensures
            result is Ok <==> self.0 + rhs.0 <= u64::MAX,
            result is Ok ==> result->Ok_0.0 == self.0 + rhs.0,
            result is Err ==> result->Err_0 == Error::CalculationError,
    {
        match self.0.checked_add(rhs.0) {
            Some(value) => Ok(StakedTokenAmount(value)),
            None => Err(Error::CalculationError),
        }
    }

    /// Checked subtraction: underflow is an error, never a wrap.
    pub fn sub(self, rhs: StakedTokenAmount) -> (result: Result<StakedTokenAmount, Error>)
        ensures
            result is Ok <==> rhs.0 <= self.0,
            result is Ok ==> result->Ok_0.0 == self.0 - rhs.0,
            result is Err ==> result->Err_0 == Error::CalculationError,
    {
        match self.0.checked_sub(rhs.0) {
            Some(value) => Ok(StakedTokenAmount(value)),
            None => Err(Error::CalculationError),
        }
    }
}

} // verus!
