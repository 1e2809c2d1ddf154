use vstd::prelude::*;

use vstd::arithmetic::div_mod::{lemma_div_pos_is_pos, lemma_multiply_divide_le};
use vstd::arithmetic::mul::{lemma_mul_inequality, lemma_mul_is_commutative, lemma_mul_nonnegative};

use crate::error::Error;
use crate::pool_error;

verus! {

/// Basis points in 100%: fee rates are integers in `[0, MAX_BASIS_POINTS]`.
pub const MAX_BASIS_POINTS: u32 = 10_000;

/// A fee rate in basis points. Construction is free; validity (at most 100%)
/// is checked on demand by `check`.
#[derive(Clone, Copy, Debug, PartialEq, Eq, Structural)]
pub struct Fee {
    pub basis_points: u32,
}

/// The lamports kept back when a fee of `basis_points` is applied to
/// `lamports`: `floor(lamports * basis_points / 10000)`.
pub open spec fn fee_taken(lamports: int, basis_points: int) -> int {
    lamports * basis_points / (MAX_BASIS_POINTS as int)
}

/// What is left of `lamports` once the fee is deducted.
pub open spec fn fee_applied(lamports: int, basis_points: int) -> int {
    lamports - fee_taken(lamports, basis_points)
}

/// The deduction never takes a negative amount, and a rate within 100% never
/// takes more than the amount itself.
pub proof fn lemma_fee_taken_bounds(lamports: int, basis_points: int)
    requires
        0 <= lamports,
        0 <= basis_points,
    ensures
        0 <= fee_taken(lamports, basis_points),
        basis_points <= MAX_BASIS_POINTS ==> fee_taken(lamports, basis_points) <= lamports,
{
    lemma_mul_nonnegative(lamports, basis_points);
    lemma_div_pos_is_pos(lamports * basis_points, MAX_BASIS_POINTS as int);
    if basis_points <= MAX_BASIS_POINTS {
        lemma_mul_inequality(basis_points, MAX_BASIS_POINTS as int, lamports);
        lemma_mul_is_commutative(lamports, basis_points);
        lemma_mul_is_commutative(MAX_BASIS_POINTS as int, lamports);
        lemma_multiply_divide_le(lamports * basis_points, MAX_BASIS_POINTS as int, lamports);
    }
}

impl Fee {
    pub fn from_basis_points(basis_points: u32) -> (result: Fee)
        ensures
            result.basis_points == basis_points,
    {
        Fee { basis_points }
    }

    /// Succeeds exactly when the rate does not exceed 100%.
    pub fn check(self) -> (result: Result<(), Error>)
        ensures
            result is Ok <==> self.basis_points <= MAX_BASIS_POINTS,
            result is Err ==> result->Err_0 == Error::LpPool(
                pool_error::Error::BasisPointsOverflow(self.basis_points),
            ),
    {
        if self.basis_points > MAX_BASIS_POINTS {
            return Err(Error::LpPool(pool_error::Error::BasisPointsOverflow(self.basis_points)));
        }
        Ok(())
    }

    /// Deducts this fee from `lamports` through a double-width intermediate.
    /// A rate within 100% always succeeds; an oversized rate whose deduction
    /// would exceed the amount is an error, never an underflow.
    pub fn apply(self, lamports: u64) -> (result: Result<u64, Error>)
        ensures
            result is Ok <==> fee_taken(lamports as int, self.basis_points as int) <= lamports,
            result is Ok ==> result->Ok_0 == fee_applied(lamports as int, self.basis_points as int),
            result is Err ==> result->Err_0 == Error::CalculationError,
            self.basis_points <= MAX_BASIS_POINTS ==> result is Ok,
    {
        proof {
            assert((lamports as int) * (self.basis_points as int) <= u128::MAX)
                by (nonlinear_arith)
                requires
                    lamports <= u64::MAX,
                    self.basis_points <= u32::MAX,
            ;
            lemma_fee_taken_bounds(lamports as int, self.basis_points as int);
        }
        let taken: u128 = (lamports as u128) * (self.basis_points as u128) / (
        MAX_BASIS_POINTS as u128);
        if taken > lamports as u128 {
            Err(Error::CalculationError)
        } else {
            Ok(lamports - (taken as u64))
        }
    }
}

} // verus!
