//! A single-asset liquidity pool that exchanges a token for a staked token at
//! a fixed price and charges a liquidity-sensitive fee. Reserves are kept as
//! exact integer lamport counts, every arithmetic step is checked rather than
//! wrapping, and the contracts pin down each reserve movement and each error.

pub mod calc;
pub mod error;
pub mod fee;
pub mod pool;
pub mod pool_error;
pub mod price;
pub mod token;
