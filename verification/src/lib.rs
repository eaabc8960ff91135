//! Hash-locked, time-locked escrow for cross-chain atomic swaps.
//!
//! The taker of a swap locks funds on the destination chain in an escrow.
//! Whoever shows the secret behind the swap's hashlock in time releases
//! them to the maker; after that time the taker takes them back. A
//! factory deploys each escrow at an address that follows from the terms
//! of the swap alone, so that both sides know it beforehand.
//!
//! - [`types`]: the terms of a swap, their time locks, and the commitment
//!   that binds them;
//! - [`binding`]: that the commitment, and with it the address, binds
//!   every field of the terms;
//! - [`utils`]: hashing, the secret check, the funding rule and the
//!   address of an escrow;
//! - [`escrow_factory`]: the factory;
//! - [`escrow_dst`]: the escrow and its operations;
//! - [`interfaces`]: the messages of both;
//! - [`chain`]: what the host chain hands to a call and takes back;
//! - [`error`]: the errors;
//! - [`uint256`], [`text`]: 256-bit integers, and the text forms of
//!   numbers and bytes.
//!
//! Every operation is a function from plain values to plain values. What
//! a contract keeps between calls is a value that the caller holds and
//! hands in; what the chain is to carry out comes back as a list of
//! messages.

pub mod binding;
pub mod chain;
pub mod error;
pub mod escrow_dst;
pub mod escrow_factory;
pub mod interfaces;
pub mod text;
pub mod types;
pub mod uint256;
pub mod utils;
