//! The factory: it checks the funding of a swap and deploys the swap's
//! escrow at an address that anyone can work out beforehand.

pub mod contract;
pub mod state;
