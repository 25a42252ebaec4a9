//! Verified core logic of the OMX perpetual-exchange contracts: checked
//! 256-bit arithmetic, the vault's pool accounting, fees, funding rates,
//! position bookkeeping, liquidity-pool pricing and reward accounting.

pub mod uint;
pub mod access;
pub mod address;
pub mod base_token;
pub mod constants;
pub mod errors;
pub mod fee_manager;
pub mod funding;
pub mod ledger;
pub mod messages;
pub mod olp;
pub mod orderbook;
pub mod position_key;
pub mod position_ops;
pub mod price_feed;
pub mod position_utils;
pub mod positions;
pub mod reward_router;
pub mod rewards;
pub mod router;
pub mod safe_math;
pub mod shorts_tracker;
pub mod swap_manager;
pub mod tracker_token;
pub mod vault;
pub mod vault_utils;
pub mod weth;
