use vstd::prelude::*;

use crate::pool_error;

verus! {

/// Everything an operation of this crate can fail with: a configuration or
/// conversion problem reported by the pool layer, or a checked-arithmetic
/// step that could not produce a representable result.
#[derive(Debug)]
pub enum Error {
    LpPool(pool_error::Error),
    CalculationError,
}

} // verus!
