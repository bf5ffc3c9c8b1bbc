//! Dutch-book arbitrage scanning over mutually-exclusive bracket markets:
//! fee model, quote extraction, opportunity detection, execution
//! classification, risk limits and the signed-request rules of the
//! exchange client, with machine-checked contracts.

pub mod clock;
pub mod config;
pub mod decimal;
pub mod detector;
pub mod executor;
pub mod kalshi;
pub mod risk;
pub mod scheduler;
pub mod storage;
pub mod telegram;
pub mod text;
