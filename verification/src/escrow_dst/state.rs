//! What an escrow keeps between calls.

use vstd::prelude::*;

verus! {

/// Where an escrow stands. It starts `Active`. The first operation that
/// succeeds on an active escrow ends the swap and leaves the escrow in
/// the state named after it; that state is final.
///
/// A withdrawal or a cancellation is carried out on an active escrow
/// only: the funds of a swap are paid out once. A rescue is carried out
/// in any state, since it is the backstop for whatever the escrow still
/// holds; it leaves a state that is final as it is.
#[derive(Clone, Copy, Debug, PartialEq, Eq, Structural)]
pub enum EscrowState {
    Active,
    Withdrawn,
    Cancelled,
    Rescued,
}

/// An escrow: the asset of the safety deposit, the offset after which
/// funds can be rescued, the commitment to the terms it was created for,
/// and where it stands.
#[derive(Clone, Debug, PartialEq, Eq)]
pub struct Escrow {
    pub safety_deposit_denom: String,
    pub rescue_delay: u32,
    pub immutable_hash: String,
    pub state: EscrowState,
}

/// An `Escrow` as plain values.
pub struct EscrowView {
    pub safety_deposit_denom: Seq<char>,
    pub rescue_delay: u32,
    pub immutable_hash: Seq<char>,
    pub state: EscrowState,
}

impl View for Escrow {
    type V = EscrowView;

    open spec fn view(&self) -> EscrowView {
        EscrowView {
            safety_deposit_denom: self.safety_deposit_denom@,
            rescue_delay: self.rescue_delay,
            immutable_hash: self.immutable_hash@,
            state: self.state,
        }
    }
}

} // verus!
