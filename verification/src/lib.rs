//! Request encoding for a leveraged-trading engine on an account-based ledger.
//!
//! A request is a payload (one byte that names the operation, then its
//! arguments in a fixed little-endian layout) and an ordered list of account
//! references, each marked writable or read-only and signer or not. The engine
//! reads both by position, so every function here states the exact payload and
//! the exact list it returns.

pub mod account;
pub mod context;
pub mod error;
pub mod instruction;
pub mod pubkey;
pub mod schema;
pub mod wire;

pub use account::{AccountMeta, Instruction};
pub use context::{CloseOrOpen, DiscountAccount, InstanceContext, MarketContext, PositionInfo};
pub use error::RequestError;
pub use instruction::{
    add_budget, add_instance, add_page, change_k, close_account, close_position, collect_garbage,
    crank_funding, crank_liquidation, create_market, extract_funding, increase_position,
    open_position, rebalance, transfer_position, transfer_user_account, update_oracle_account,
    withdraw_budget,
};
pub use pubkey::{ConstantAccounts, Pubkey};
pub use schema::{PerpInstruction, PositionType};
