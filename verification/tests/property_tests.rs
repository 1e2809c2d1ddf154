use lp_pool::calc::{proportional, value_from_shares};
use lp_pool::error::Error;
use lp_pool::fee::Fee;
use lp_pool::pool::LpPool;
use lp_pool::pool_error;
use lp_pool::price::Price;
use lp_pool::token::{LpTokenAmount, StakedTokenAmount, TokenAmount};

#[test]
fn proportional_with_zero_denominator_returns_the_amount() {
    assert_eq!(proportional(7, 9, 0).unwrap(), 7);
}

#[test]
fn proportional_computes_the_exact_quotient() {
    assert_eq!(proportional(90, 50, 100).unwrap(), 45);
}

#[test]
fn proportional_overflow_is_an_error() {
    assert!(matches!(
        proportional(u64::MAX, u64::MAX, 1),
        Err(Error::CalculationError)
    ));
}

#[test]
fn value_from_shares_is_pro_rata() {
    assert_eq!(value_from_shares(10, 100, 100).unwrap(), 10);
}

#[test]
fn init_reports_the_fee_ordering_violation() {
    assert!(matches!(
        LpPool::init(
            Price::from_points(100),
            Fee::from_basis_points(101),
            Fee::from_basis_points(100),
            TokenAmount::from_lamports(100),
        ),
        Err(Error::LpPool(pool_error::Error::MinFeeGreaterThanMaxFee { .. }))
    ));
}

#[test]
fn init_reports_the_zero_liquidity_target() {
    assert!(matches!(
        LpPool::init(
            Price::from_points(100),
            Fee::from_basis_points(10),
            Fee::from_basis_points(100),
            TokenAmount::from_lamports(0),
        ),
        Err(Error::LpPool(pool_error::Error::LiquidityTargetIncorrect(
            TokenAmount(0)
        )))
    ));
}

#[test]
fn init_reports_the_zero_price() {
    assert!(matches!(
        LpPool::init(
            Price::from_points(0),
            Fee::from_basis_points(10),
            Fee::from_basis_points(100),
            TokenAmount::from_lamports(100),
        ),
        Err(Error::LpPool(pool_error::Error::PriceIncorrect(Price(0))))
    ));
}

#[test]
fn fee_curve_interpolates_between_min_and_max() {
    let pool = LpPool::init(
        Price::try_from(10).unwrap(),
        Fee::from_basis_points(10),
        Fee::from_basis_points(100),
        TokenAmount::from_lamports(100),
    )
    .unwrap();
    // max_fee - (max_fee - min_fee) * after / target = 100 - 90 * 50 / 100
    assert_eq!(pool.calculate_fee(TokenAmount(50)).basis_points, 55);
    assert_eq!(pool.calculate_fee(TokenAmount(0)).basis_points, 100);
    assert_eq!(pool.calculate_fee(TokenAmount(100)).basis_points, 10);
    assert_eq!(pool.calculate_fee(TokenAmount(1000)).basis_points, 10);
}

#[test]
fn fee_curve_decreases_as_the_reserve_grows() {
    let pool = LpPool::init(
        Price::try_from(10).unwrap(),
        Fee::from_basis_points(10),
        Fee::from_basis_points(100),
        TokenAmount::from_lamports(100),
    )
    .unwrap();
    let mut previous: u32 = pool.calculate_fee(TokenAmount(0)).basis_points;
    for after in 1..120u64 {
        let current: u32 = pool.calculate_fee(TokenAmount(after)).basis_points;
        assert!(current <= previous);
        previous = current;
    }
}

#[test]
fn removing_ten_shares_far_above_target_pays_the_min_fee_value() {
    // price 1.00, min 0.10%, max 10.00%, target 10
    let mut pool = LpPool::init(
        Price::from_points(100),
        Fee::from_basis_points(10),
        Fee::from_basis_points(1000),
        TokenAmount::from_lamports(10),
    )
    .unwrap();
    pool.add_liquidity(TokenAmount::from_lamports(100)).unwrap();
    let (tokens, _staked) = pool
        .remove_liquidity(LpTokenAmount::from_lamports(10))
        .unwrap();
    assert_eq!(tokens.0, pool.min_fee.apply(10).unwrap());
    assert_eq!(tokens.0, 10);
}

#[test]
fn zero_fee_round_trip_returns_the_contribution_exactly() {
    let mut pool = LpPool::init(
        Price::from_points(100),
        Fee::from_basis_points(0),
        Fee::from_basis_points(1000),
        TokenAmount::from_lamports(10),
    )
    .unwrap();
    pool.add_liquidity(TokenAmount::from_lamports(50)).unwrap();
    let minted = pool.add_liquidity(TokenAmount::from_lamports(20)).unwrap();
    assert_eq!(minted, LpTokenAmount::from_lamports(20));
    let (tokens, _staked) = pool.remove_liquidity(minted).unwrap();
    assert_eq!(tokens, TokenAmount::from_lamports(20));
    assert_eq!(pool.token_amount, TokenAmount::from_lamports(50));
    assert_eq!(pool.lp_token_amount, LpTokenAmount::from_lamports(50));
    assert_eq!(pool.staked_token_amount, StakedTokenAmount::from_lamports(0));
}

#[test]
fn add_liquidity_overflow_fails_and_leaves_the_pool_unchanged() {
    let mut pool = LpPool::init(
        Price::from_points(100),
        Fee::from_basis_points(10),
        Fee::from_basis_points(100),
        TokenAmount::from_lamports(100),
    )
    .unwrap();
    pool.add_liquidity(TokenAmount::from_lamports(100)).unwrap();
    assert!(matches!(
        pool.add_liquidity(TokenAmount::from_lamports(u64::MAX)),
        Err(Error::CalculationError)
    ));
    assert_eq!(pool.token_amount, TokenAmount::from_lamports(100));
    assert_eq!(pool.lp_token_amount, LpTokenAmount::from_lamports(100));
    assert_eq!(pool.staked_token_amount, StakedTokenAmount::from_lamports(1));
}

#[test]
fn swap_draining_more_than_the_reserve_fails_unchanged() {
    let mut pool = LpPool::init(
        Price::from_points(100),
        Fee::from_basis_points(10),
        Fee::from_basis_points(100),
        TokenAmount::from_lamports(100),
    )
    .unwrap();
    assert!(matches!(
        pool.swap(StakedTokenAmount::from_lamports(1)),
        Err(Error::CalculationError)
    ));
    assert_eq!(pool.token_amount, TokenAmount::from_lamports(0));
    assert_eq!(pool.staked_token_amount, StakedTokenAmount::from_lamports(0));
}

#[test]
fn swap_value_overflow_is_an_error() {
    let mut pool = LpPool::init(
        Price::from_points(u64::MAX),
        Fee::from_basis_points(10),
        Fee::from_basis_points(100),
        TokenAmount::from_lamports(100),
    )
    .unwrap();
    assert!(matches!(
        pool.swap(StakedTokenAmount::from_lamports(2)),
        Err(Error::CalculationError)
    ));
}

#[test]
fn remove_liquidity_from_an_empty_pool_is_an_error() {
    let mut pool = LpPool::init(
        Price::from_points(100),
        Fee::from_basis_points(10),
        Fee::from_basis_points(100),
        TokenAmount::from_lamports(100),
    )
    .unwrap();
    // with no issued shares the pro-rata escape hands the shares back as
    // lamports, which the empty reserve cannot cover
    assert!(matches!(
        pool.remove_liquidity(LpTokenAmount::from_lamports(10)),
        Err(Error::CalculationError)
    ));
}

#[test]
fn remove_liquidity_of_more_shares_than_issued_is_an_error() {
    let mut pool = LpPool::init(
        Price::from_points(100),
        Fee::from_basis_points(10),
        Fee::from_basis_points(100),
        TokenAmount::from_lamports(100),
    )
    .unwrap();
    pool.add_liquidity(TokenAmount::from_lamports(100)).unwrap();
    assert!(matches!(
        pool.remove_liquidity(LpTokenAmount::from_lamports(101)),
        Err(Error::CalculationError)
    ));
    assert_eq!(pool.token_amount, TokenAmount::from_lamports(100));
}
