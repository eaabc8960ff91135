//! The messages that the two contracts take.

pub mod escrow_dst;
pub mod escrow_factory;
