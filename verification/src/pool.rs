use vstd::prelude::*;

use vstd::arithmetic::div_mod::{
    lemma_div_is_ordered, lemma_div_multiples_vanish, lemma_div_pos_is_pos,
    lemma_multiply_divide_le,
};
use vstd::arithmetic::mul::{lemma_mul_inequality, lemma_mul_is_commutative, lemma_mul_nonnegative};

use crate::calc::{proportional, proportional_value, value_from_shares};
use crate::error::Error;
use crate::fee::{fee_applied, fee_taken, lemma_fee_taken_bounds, Fee};
use crate::pool_error;
use crate::price::Price;
use crate::token::{LpTokenAmount, StakedTokenAmount, TokenAmount};

verus! {

/// The pool's state: a fixed price and fee configuration, and three mutable
/// reserves that start at zero and move only through `add_liquidity`,
/// `remove_liquidity` and `swap`.
pub struct LpPool {
    pub price: Price,
    pub token_amount: TokenAmount,
    pub staked_token_amount: StakedTokenAmount,
    pub lp_token_amount: LpTokenAmount,
    pub liquidity_target: TokenAmount,
    pub min_fee: Fee,
    pub max_fee: Fee,
}

impl LpPool {
    /// The configuration a successful `init` establishes and every operation
    /// preserves: ordered fees, a nonzero target and a nonzero price.
    pub open spec fn wf(self) -> bool {
        &&& self.min_fee.basis_points <= self.max_fee.basis_points
        &&& self.liquidity_target.0 > 0
        &&& self.price.0 > 0
    }

    /// The fee rate charged when the token reserve would stand at
    /// `token_amount_after`: the minimum fee at or above the liquidity
    /// target, and below it a linear interpolation that reaches the maximum
    /// fee at an empty reserve.
    pub open spec fn fee_bp_for(self, token_amount_after: int) -> int {
        if token_amount_after >= self.liquidity_target.0 {
            self.min_fee.basis_points as int
        } else {
            self.max_fee.basis_points - (self.max_fee.basis_points - self.min_fee.basis_points)
                * token_amount_after / (self.liquidity_target.0 as int)
        }
    }

    /// Validates the configuration, in order: fee ordering, nonzero target,
    /// nonzero price. On success the reserves start at zero.
    pub fn init(
        price: Price,
        min_fee: Fee,
        max_fee: Fee,
        liquidity_target: TokenAmount,
    ) -> (result: Result<LpPool, Error>)
        ensures
            result is Ok <==> (min_fee.basis_points <= max_fee.basis_points
                && liquidity_target.0 > 0 && price.0 > 0),
            result is Ok ==> {
                let pool = result->Ok_0;
                &&& pool.wf()
                &&& pool.price == price
                &&& pool.min_fee == min_fee
                &&& pool.max_fee == max_fee
                &&& pool.liquidity_target == liquidity_target
                &&& pool.token_amount.0 == 0
                &&& pool.staked_token_amount.0 == 0
                &&& pool.lp_token_amount.0 == 0
            },
            result is Err ==> result->Err_0 == (if min_fee.basis_points > max_fee.basis_points {
                Error::LpPool(pool_error::Error::MinFeeGreaterThanMaxFee { min: min_fee, max: max_fee })
            } else if liquidity_target.0 == 0 {
                Error::LpPool(pool_error::Error::LiquidityTargetIncorrect(liquidity_target))
            } else {
                Error::LpPool(pool_error::Error::PriceIncorrect(price))
            }),
    {
        if min_fee.basis_points > max_fee.basis_points {
            return Err(
                Error::LpPool(
                    pool_error::Error::MinFeeGreaterThanMaxFee { min: min_fee, max: max_fee },
                ),
            );
        }
        if liquidity_target.0 == 0 {
            return Err(
                Error::LpPool(pool_error::Error::LiquidityTargetIncorrect(liquidity_target)),
            );
        }
        if price.0 == 0 {
            return Err(Error::LpPool(pool_error::Error::PriceIncorrect(price)));
        }
        Ok(
            LpPool {
                price,
                min_fee,
                max_fee,
                liquidity_target,
                token_amount: TokenAmount(0),
                staked_token_amount: StakedTokenAmount(0),
                lp_token_amount: LpTokenAmount(0),
            },
        )
    }

    /// Computes the fee charged when the token reserve would stand at
    /// `token_amount_after`, without touching the pool.
    pub fn calculate_fee(&self, token_amount_after: TokenAmount) -> (result: Fee)
        requires
            self.wf(),
        ensures
            result.basis_points == self.fee_bp_for(token_amount_after.0 as int),
    {
        if token_amount_after.0 >= self.liquidity_target.0 {
            return Fee::from_basis_points(self.min_fee.basis_points);
        }
        let fee_delta: u64 = (self.max_fee.basis_points - self.min_fee.basis_points) as u64;
        let lamports: u64 = token_amount_after.0;
        let target: u64 = self.liquidity_target.0;
        proof {
            lemma_mul_nonnegative(fee_delta as int, lamports as int);
            lemma_div_pos_is_pos(fee_delta as int * lamports as int, target as int);
            lemma_mul_inequality(lamports as int, target as int, fee_delta as int);
            lemma_mul_is_commutative(fee_delta as int, lamports as int);
            lemma_mul_is_commutative(target as int, fee_delta as int);
            lemma_multiply_divide_le(
                fee_delta as int * lamports as int,
                target as int,
                fee_delta as int,
            );
        }
        let scaled = proportional(fee_delta, lamports, target).unwrap();
        Fee::from_basis_points(self.max_fee.basis_points - (scaled as u32))
    }

    /// The LP shares minted when `tokens_to_add` lamports are contributed:
    /// the contribution less the fee charged at the hypothetical post-add
    /// reserve.
    pub open spec fn add_minted(self, tokens_to_add: int) -> int {
        fee_applied(tokens_to_add, self.fee_bp_for(self.token_amount.0 + tokens_to_add))
    }

    /// When adding `tokens_to_add` succeeds: the post-add reserve fits,
    /// the fee deduction does not exceed the contribution, and neither the
    /// staked nor the LP credit overflows.
    pub open spec fn add_ok(self, tokens_to_add: int) -> bool {
        let after = self.token_amount.0 + tokens_to_add;
        &&& after <= u64::MAX
        &&& fee_taken(tokens_to_add, self.fee_bp_for(after)) <= tokens_to_add
        &&& self.staked_token_amount.0 + self.add_minted(tokens_to_add) / (self.price.0 as int)
            <= u64::MAX
        &&& self.lp_token_amount.0 + self.add_minted(tokens_to_add) <= u64::MAX
    }

    /// Credits a contribution to the reserves, charging the fee for the
    /// hypothetical post-add reserve, and mints LP shares one for one with
    /// the post-fee amount. A failing step leaves the pool untouched.
    pub fn add_liquidity(&mut self, tokens_to_add: TokenAmount) -> (result: Result<
        LpTokenAmount,
        Error,
    >)
        requires
            old(self).wf(),
        ensures
            final(self).wf(),
            final(self).price == old(self).price,
            final(self).min_fee == old(self).min_fee,
            final(self).max_fee == old(self).max_fee,
            final(self).liquidity_target == old(self).liquidity_target,
            result is Ok <==> old(self).add_ok(tokens_to_add.0 as int),
            result is Ok ==> ({
                let minted = old(self).add_minted(tokens_to_add.0 as int);
                &&& result->Ok_0.0 == minted
                &&& final(self).token_amount.0 == old(self).token_amount.0 + minted
                &&& final(self).staked_token_amount.0 == old(self).staked_token_amount.0 + minted
                    / (old(self).price.0 as int)
                &&& final(self).lp_token_amount.0 == old(self).lp_token_amount.0 + minted
            }),
            result is Err ==> *final(self) == *old(self) && result->Err_0
                == Error::CalculationError,
    {
        let token_amount_after = match self.token_amount.add(tokens_to_add) {
            Ok(t) => t,
            Err(e) => { return Err(e); },
        };
        let fee = self.calculate_fee(token_amount_after);
        let minted_lamports = match fee.apply(tokens_to_add.0) {
            Ok(v) => v,
            Err(e) => { return Err(e); },
        };
        let tokens_with_fee = TokenAmount(minted_lamports);
        let staked_credit = match StakedTokenAmount::from_tokens(tokens_with_fee, self.price) {
            Ok(s) => s,
            Err(e) => { return Err(e); },
        };
        proof {
            // the deduction is not negative, so the token credit stays within
            // the already checked post-add reserve
            lemma_fee_taken_bounds(tokens_to_add.0 as int, fee.basis_points as int);
        }
        let new_token_amount = match self.token_amount.add(tokens_with_fee) {
            Ok(t) => t,
            Err(e) => { return Err(e); },
        };
        let new_staked_amount = match self.staked_token_amount.add(staked_credit) {
            Ok(s) => s,
            Err(e) => { return Err(e); },
        };
        let minted = LpTokenAmount::from_tokens(tokens_with_fee);
        let new_lp_amount = match self.lp_token_amount.add(minted) {
            Ok(l) => l,
            Err(e) => { return Err(e); },
        };
        self.token_amount = new_token_amount;
        self.staked_token_amount = new_staked_amount;
        self.lp_token_amount = new_lp_amount;
        Ok(minted)
    }

    /// The caller's pro-rata share of the token reserve for `lp_tokens`
    /// burned shares, before the fee.
    pub open spec fn remove_gross(self, lp_tokens: int) -> int {
        proportional_value(lp_tokens, self.token_amount.0 as int, self.lp_token_amount.0 as int)
    }

    /// The fee rate a removal pays, taken at the hypothetical reserve left
    /// once the pro-rata share is gone.
    pub open spec fn remove_bp(self, lp_tokens: int) -> int {
        self.fee_bp_for(self.token_amount.0 - self.remove_gross(lp_tokens))
    }

    /// The token lamports actually paid out by a removal.
    pub open spec fn remove_net(self, lp_tokens: int) -> int {
        fee_applied(self.remove_gross(lp_tokens), self.remove_bp(lp_tokens))
    }

    /// The staked-token value of the payout at the pool's price.
    pub open spec fn remove_unstaked(self, lp_tokens: int) -> int {
        self.remove_net(lp_tokens) / (self.price.0 as int)
    }

    /// When removing `lp_tokens` succeeds: the pro-rata share fits and does
    /// not exceed the token reserve, the fee deduction does not exceed the
    /// share, and the staked debit and the share burn stay within their
    /// reserves.
    pub open spec fn remove_ok(self, lp_tokens: int) -> bool {
        &&& self.remove_gross(lp_tokens) <= u64::MAX
        &&& self.remove_gross(lp_tokens) <= self.token_amount.0
        &&& fee_taken(self.remove_gross(lp_tokens), self.remove_bp(lp_tokens))
            <= self.remove_gross(lp_tokens)
        &&& self.remove_unstaked(lp_tokens) <= self.staked_token_amount.0
        &&& lp_tokens <= self.lp_token_amount.0
    }

    /// Pays out the pro-rata token share for the burned LP shares, less the
    /// fee charged at the hypothetical post-removal reserve; the burn itself
    /// is not fee-adjusted. A failing step leaves the pool untouched.
    pub fn remove_liquidity(&mut self, lp_tokens_to_remove: LpTokenAmount) -> (result: Result<
        (TokenAmount, StakedTokenAmount),
        Error,
    >)
        requires
            old(self).wf(),
        ensures
            final(self).wf(),
            final(self).price == old(self).price,
            final(self).min_fee == old(self).min_fee,
            final(self).max_fee == old(self).max_fee,
            final(self).liquidity_target == old(self).liquidity_target,
            result is Ok <==> old(self).remove_ok(lp_tokens_to_remove.0 as int),
            result is Ok ==> ({
                let paid = result->Ok_0;
                let net = old(self).remove_net(lp_tokens_to_remove.0 as int);
                let unstaked = old(self).remove_unstaked(lp_tokens_to_remove.0 as int);
                &&& paid.0.0 == net
                &&& paid.1.0 == unstaked
                &&& final(self).token_amount.0 == old(self).token_amount.0 - net
                &&& final(self).staked_token_amount.0 == old(self).staked_token_amount.0
                    - unstaked
                &&& final(self).lp_token_amount.0 == old(self).lp_token_amount.0
                    - lp_tokens_to_remove.0
            }),
            result is Err ==> *final(self) == *old(self) && result->Err_0
                == Error::CalculationError,
    {
        let gross_lamports = match value_from_shares(
            lp_tokens_to_remove.0,
            self.token_amount.0,
            self.lp_token_amount.0,
        ) {
            Ok(v) => v,
            Err(e) => { return Err(e); },
        };
        let tokens_without_fee = TokenAmount(gross_lamports);
        let token_amount_after = match self.token_amount.sub(tokens_without_fee) {
            Ok(t) => t,
            Err(e) => { return Err(e); },
        };
        let fee = self.calculate_fee(token_amount_after);
        let net_lamports = match fee.apply(gross_lamports) {
            Ok(v) => v,
            Err(e) => { return Err(e); },
        };
        let tokens_with_fee = TokenAmount(net_lamports);
        let unstaked_tokens = match StakedTokenAmount::from_tokens(tokens_with_fee, self.price) {
            Ok(s) => s,
            Err(e) => { return Err(e); },
        };
        proof {
            // the deduction is not negative, so the payout stays within the
            // pro-rata share, which was already checked against the reserve
            lemma_fee_taken_bounds(gross_lamports as int, fee.basis_points as int);
        }
        let new_token_amount = match self.token_amount.sub(tokens_with_fee) {
            Ok(t) => t,
            Err(e) => { return Err(e); },
        };
        let new_staked_amount = match self.staked_token_amount.sub(unstaked_tokens) {
            Ok(s) => s,
            Err(e) => { return Err(e); },
        };
        let new_lp_amount = match self.lp_token_amount.sub(lp_tokens_to_remove) {
            Ok(l) => l,
            Err(e) => { return Err(e); },
        };
        self.token_amount = new_token_amount;
        self.staked_token_amount = new_staked_amount;
        self.lp_token_amount = new_lp_amount;
        Ok((tokens_with_fee, unstaked_tokens))
    }

    /// The token value of the incoming staked tokens at the pool's price.
    pub open spec fn swap_value(self, staked_tokens: int) -> int {
        staked_tokens * self.price.0
    }

    /// The fee rate a swap pays, taken at the hypothetical reserve left once
    /// the full token value is gone.
    pub open spec fn swap_bp(self, staked_tokens: int) -> int {
        self.fee_bp_for(self.token_amount.0 - self.swap_value(staked_tokens))
    }

    /// The token lamports actually paid out by a swap.
    pub open spec fn swap_net(self, staked_tokens: int) -> int {
        fee_applied(self.swap_value(staked_tokens), self.swap_bp(staked_tokens))
    }

    /// When swapping `staked_tokens` succeeds: their token value fits and
    /// does not exceed the token reserve, the fee deduction does not exceed
    /// that value, and the staked credit does not overflow.
    pub open spec fn swap_ok(self, staked_tokens: int) -> bool {
        &&& self.swap_value(staked_tokens) <= u64::MAX
        &&& self.swap_value(staked_tokens) <= self.token_amount.0
        &&& fee_taken(self.swap_value(staked_tokens), self.swap_bp(staked_tokens))
            <= self.swap_value(staked_tokens)
        &&& self.staked_token_amount.0 + staked_tokens <= u64::MAX
    }

    /// Takes staked tokens in at the fixed price and pays their token value
    /// out of the reserve, less the fee charged at the hypothetical
    /// post-swap reserve; the staked side is credited in full. A failing
    /// step leaves the pool untouched.
    pub fn swap(&mut self, staked_tokens_to_swap: StakedTokenAmount) -> (result: Result<
        TokenAmount,
        Error,
    >)
        requires
            old(self).wf(),
        ensures
            final(self).wf(),
            final(self).price == old(self).price,
            final(self).min_fee == old(self).min_fee,
            final(self).max_fee == old(self).max_fee,
            final(self).liquidity_target == old(self).liquidity_target,
            final(self).lp_token_amount == old(self).lp_token_amount,
            result is Ok <==> old(self).swap_ok(staked_tokens_to_swap.0 as int),
            result is Ok ==> ({
                let net = old(self).swap_net(staked_tokens_to_swap.0 as int);
                &&& result->Ok_0.0 == net
                &&& final(self).token_amount.0 == old(self).token_amount.0 - net
                &&& final(self).staked_token_amount.0 == old(self).staked_token_amount.0
                    + staked_tokens_to_swap.0
            }),
            result is Err ==> *final(self) == *old(self) && result->Err_0
                == Error::CalculationError,
    {
        let value_lamports = match self.price.mul_by_price(staked_tokens_to_swap.0) {
            Ok(v) => v,
            Err(e) => { return Err(e); },
        };
        let token_amount_after = match self.token_amount.sub(TokenAmount(value_lamports)) {
            Ok(t) => t,
            Err(e) => { return Err(e); },
        };
        let fee = self.calculate_fee(token_amount_after);
        let tokens_without_fee = match TokenAmount::from_staked_tokens(
            staked_tokens_to_swap,
            self.price,
        ) {
            Ok(t) => t,
            Err(e) => { return Err(e); },
        };
        let net_lamports = match fee.apply(tokens_without_fee.0) {
            Ok(v) => v,
            Err(e) => { return Err(e); },
        };
        let tokens_with_fee = TokenAmount(net_lamports);
        proof {
            // the deduction is not negative, so the payout stays within the
            // token value, which was already checked against the reserve
            lemma_fee_taken_bounds(value_lamports as int, fee.basis_points as int);
        }
        let new_token_amount = match self.token_amount.sub(tokens_with_fee) {
            Ok(t) => t,
            Err(e) => { return Err(e); },
        };
        let new_staked_amount = match self.staked_token_amount.add(staked_tokens_to_swap) {
            Ok(s) => s,
            Err(e) => { return Err(e); },
        };
        self.token_amount = new_token_amount;
        self.staked_token_amount = new_staked_amount;
        Ok(tokens_with_fee)
    }
}

/// The fee curve never leaves the configured band: whatever hypothetical
/// reserve an operation computes, the charged rate lies between the minimum
/// and the maximum fee, both inclusive.
pub proof fn lemma_fee_bounds(pool: LpPool, token_amount_after: int)
    requires
        pool.wf(),
        0 <= token_amount_after,
    ensures
        pool.min_fee.basis_points <= pool.fee_bp_for(token_amount_after),
        pool.fee_bp_for(token_amount_after) <= pool.max_fee.basis_points,
{
    if token_amount_after < pool.liquidity_target.0 {
        let delta = pool.max_fee.basis_points - pool.min_fee.basis_points;
        let target = pool.liquidity_target.0 as int;
        lemma_mul_nonnegative(delta, token_amount_after);
        lemma_div_pos_is_pos(delta * token_amount_after, target);
        lemma_mul_inequality(token_amount_after, target, delta);
        lemma_mul_is_commutative(delta, token_amount_after);
        lemma_mul_is_commutative(target, delta);
        lemma_multiply_divide_le(delta * token_amount_after, target, delta);
    }
}

/// Fee pressure eases monotonically: a higher hypothetical reserve is never
/// charged a higher rate than a lower one.
pub proof fn lemma_fee_monotonic(pool: LpPool, lower: int, higher: int)
    requires
        pool.wf(),
        0 <= lower <= higher,
    ensures
        pool.fee_bp_for(higher) <= pool.fee_bp_for(lower),
{
    let delta = pool.max_fee.basis_points - pool.min_fee.basis_points;
    let target = pool.liquidity_target.0 as int;
    if higher < target {
        lemma_mul_inequality(lower, higher, delta);
        lemma_mul_is_commutative(delta, lower);
        lemma_mul_is_commutative(delta, higher);
        lemma_div_is_ordered(delta * lower, delta * higher, target);
    } else if lower < target {
        lemma_fee_bounds(pool, lower);
    }
}

/// Round trip without fee pressure: on a pool whose minimum fee is zero,
/// whose token and LP reserves stand equal at or above the liquidity target,
/// adding `tokens_to_add` mints exactly that many LP shares, and removing
/// those shares immediately afterwards pays exactly the same token amount
/// back and restores every reserve.
pub proof fn lemma_zero_fee_round_trip(pool: LpPool, tokens_to_add: u64)
    requires
        pool.wf(),
        pool.min_fee.basis_points == 0,
        pool.token_amount.0 == pool.lp_token_amount.0,
        pool.token_amount.0 >= pool.liquidity_target.0,
        pool.token_amount.0 + tokens_to_add <= u64::MAX,
        pool.staked_token_amount.0 + tokens_to_add as int / (pool.price.0 as int) <= u64::MAX,
    ensures
        pool.add_ok(tokens_to_add as int),
        pool.add_minted(tokens_to_add as int) == tokens_to_add,
        ({
            let added = (LpPool {
                price: pool.price,
                token_amount: TokenAmount((pool.token_amount.0 + tokens_to_add) as u64),
                staked_token_amount: StakedTokenAmount(
                    (pool.staked_token_amount.0 + tokens_to_add as int / (
                    pool.price.0 as int)) as u64,
                ),
                lp_token_amount: LpTokenAmount((pool.lp_token_amount.0 + tokens_to_add) as u64),
                liquidity_target: pool.liquidity_target,
                min_fee: pool.min_fee,
                max_fee: pool.max_fee,
            });
            &&& added.remove_ok(tokens_to_add as int)
            &&& added.remove_net(tokens_to_add as int) == tokens_to_add
            &&& added.remove_unstaked(tokens_to_add as int) == tokens_to_add as int / (
            pool.price.0 as int)
            &&& added.token_amount.0 - added.remove_net(tokens_to_add as int)
                == pool.token_amount.0
            &&& added.staked_token_amount.0 - added.remove_unstaked(tokens_to_add as int)
                == pool.staked_token_amount.0
            &&& added.lp_token_amount.0 - tokens_to_add == pool.lp_token_amount.0
        }),
{
    let x = tokens_to_add as int;
    let after = pool.token_amount.0 + x;
    let added = (LpPool {
        price: pool.price,
        token_amount: TokenAmount((pool.token_amount.0 + tokens_to_add) as u64),
        staked_token_amount: StakedTokenAmount(
            (pool.staked_token_amount.0 + tokens_to_add as int / (pool.price.0 as int)) as u64,
        ),
        lp_token_amount: LpTokenAmount((pool.lp_token_amount.0 + tokens_to_add) as u64),
        liquidity_target: pool.liquidity_target,
        min_fee: pool.min_fee,
        max_fee: pool.max_fee,
    });
    // at or above the target, the charged rate is the minimum fee, zero here
    assert(pool.fee_bp_for(after) == 0);
    assert(fee_taken(x, 0) == 0);
    assert(pool.add_minted(x) == x);
    // the pro-rata share of `x` shares out of equal reserves is `x` itself
    if after > 0 {
        lemma_div_multiples_vanish(x, after);
        lemma_mul_is_commutative(after, x);
        assert(x * after / after == x);
    }
    assert(added.remove_gross(x) == x);
    assert(added.remove_bp(x) == 0);
}

} // verus!


