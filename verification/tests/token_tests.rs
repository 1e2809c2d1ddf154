use lp_pool::error::Error;
use lp_pool::fee::Fee;
use lp_pool::price::Price;
use lp_pool::token::{LpTokenAmount, StakedTokenAmount, TokenAmount};

#[test]
fn it_creates_token_amount_from_lamports() {
    let token_amount = TokenAmount::from_lamports(10000);
    assert_eq!(token_amount.0, 10000);
}

#[test]
fn it_creates_token_from_staked_tokens() {
    let token_amount =
        TokenAmount::from_staked_tokens(StakedTokenAmount(10000), Price::from_points(2)).unwrap();
    assert_eq!(token_amount.0, 20000);
}

#[test]
fn it_creates_lp_token_from_tokens() {
    let lp_token_amount = LpTokenAmount::from_tokens(TokenAmount(10000));
    assert_eq!(lp_token_amount.0, 10000);
}

#[test]
fn it_creates_lp_token_from_tokens_with_fee() {
    let lp_token_amount =
        LpTokenAmount::from_tokens_with_fee(TokenAmount(10000), Fee::from_basis_points(100))
            .unwrap();
    assert_eq!(lp_token_amount.0, 9900);
}

#[test]
fn it_creates_staked_token_from_tokens() {
    let staked_token_amount =
        StakedTokenAmount::from_tokens(TokenAmount(10000), Price::from_points(2)).unwrap();
    assert_eq!(staked_token_amount.0, 5000);
}

#[test]
fn it_creates_staked_token_from_lamports() {
    let staked_token_amount = StakedTokenAmount::from_lamports(10000);
    assert_eq!(staked_token_amount.0, 10000);
}

#[test]
fn token_add_overflow_is_an_error() {
    assert!(matches!(
        TokenAmount(u64::MAX).add(TokenAmount(1)),
        Err(Error::CalculationError)
    ));
}

#[test]
fn token_sub_underflow_is_an_error() {
    assert!(matches!(
        TokenAmount(0).sub(TokenAmount(1)),
        Err(Error::CalculationError)
    ));
}

#[test]
fn token_add_at_the_boundary_succeeds() {
    assert_eq!(
        TokenAmount(u64::MAX - 1).add(TokenAmount(1)).unwrap(),
        TokenAmount(u64::MAX)
    );
}

#[test]
fn token_div_by_zero_is_an_error() {
    assert!(matches!(
        TokenAmount(10).div(TokenAmount(0)),
        Err(Error::CalculationError)
    ));
}

#[test]
fn token_div_floors_the_quotient() {
    assert_eq!(TokenAmount(7).div(TokenAmount(2)).unwrap(), TokenAmount(3));
}

#[test]
fn lp_token_add_overflow_is_an_error() {
    assert!(matches!(
        LpTokenAmount(u64::MAX).add(LpTokenAmount(1)),
        Err(Error::CalculationError)
    ));
}

#[test]
fn lp_token_sub_underflow_is_an_error() {
    assert!(matches!(
        LpTokenAmount(5).sub(LpTokenAmount(6)),
        Err(Error::CalculationError)
    ));
}

#[test]
fn staked_token_add_overflow_is_an_error() {
    assert!(matches!(
        StakedTokenAmount(u64::MAX).add(StakedTokenAmount(1)),
        Err(Error::CalculationError)
    ));
}

#[test]
fn staked_token_sub_underflow_is_an_error() {
    assert!(matches!(
        StakedTokenAmount(0).sub(StakedTokenAmount(1)),
        Err(Error::CalculationError)
    ));
}

#[test]
fn from_staked_tokens_overflow_is_an_error() {
    assert!(matches!(
        TokenAmount::from_staked_tokens(StakedTokenAmount(u64::MAX), Price::from_points(2)),
        Err(Error::CalculationError)
    ));
}
