//! What the factory keeps between calls.

use vstd::prelude::*;

verus! {

/// The offset from deployment, in seconds, after which the funds of an
/// escrow can be rescued.
pub const RESCUE_DELAY: u32 = 86400;

/// The factory's configuration, set once: the code of the escrows it
/// deploys, by number and by checksum, and the asset in which safety
/// deposits are paid.
#[derive(Clone, Debug, PartialEq, Eq)]
pub struct Factory {
    pub escrow_dst_code_id: u64,
    pub escrow_dst_code_hash: Vec<u8>,
    pub safety_deposit_token: String,
}

/// A `Factory` as plain values.
pub struct FactoryView {
    pub escrow_dst_code_id: u64,
    pub escrow_dst_code_hash: Seq<u8>,
    pub safety_deposit_token: Seq<char>,
}

impl View for Factory {
    type V = FactoryView;

    open spec fn view(&self) -> FactoryView {
        FactoryView {
            escrow_dst_code_id: self.escrow_dst_code_id,
            escrow_dst_code_hash: self.escrow_dst_code_hash@,
            safety_deposit_token: self.safety_deposit_token@,
        }
    }
}

} // verus!
