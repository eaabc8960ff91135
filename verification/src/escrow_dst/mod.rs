//! The escrow on the destination chain: it holds the funds of one swap
//! until the taker withdraws them with the secret, or takes them back
//! once the swap can be cancelled.

pub mod contract;
pub mod state;
