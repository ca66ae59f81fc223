//! Verified core of a perpetual and swap market: fixed-point arithmetic, pools, fees, price
//! impact, swaps, the state kept by the market and oracle accounts, the checks made when orders
//! and withdrawals are created, program derived addresses, and the planning of price updates.
use vstd::prelude::*;

pub mod action;
pub mod clock;
pub mod constants;
pub mod core_error;
pub mod delta;
pub mod deposit;
pub mod distribute;
pub mod error;
pub mod exchange;
pub mod feeds;
pub mod fixed;
pub mod hermes;
pub mod market;
pub mod num;
pub mod oracle;
pub mod order;
pub mod params;
pub mod pda;
pub mod pool;
pub mod price;
pub mod price_map;
pub mod pull_oracle;
pub mod revertible;
pub mod ser;
pub mod swap;
pub mod token_config;
pub mod trade;
pub mod treasury;
pub mod utils;

verus! {

} // verus!
