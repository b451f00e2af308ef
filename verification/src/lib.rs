//! Integer arithmetic and state machine of a two-asset StableSwap liquidity pool.

pub mod codec;
pub mod curve;
pub mod error;
pub mod fees;
pub mod helpers;
pub mod instruction;
pub mod pool;
pub mod processor;
pub mod pubkey;
pub mod state;
pub mod token;
