use vstd::prelude::*;

use crate::fee::Fee;
use crate::price::Price;
use crate::token::TokenAmount;

verus! {

/// Configuration and conversion failures raised when a pool is set up and
/// when a price is built from unscaled input.
#[derive(Debug)]
pub enum Error {
    LiquidityTargetIncorrect(TokenAmount),
    PriceIncorrect(Price),
    PriceConversionFailure { converted_from: String },
    BasisPointsOverflow(u32),
    MinFeeGreaterThanMaxFee { min: Fee, max: Fee },
}

} // verus!
