//! The messages of an escrow on the destination chain.

use vstd::prelude::*;
use crate::types::{Immutables, ImmutablesView};
use crate::uint256::Uint256;

verus! {

/// What an escrow is created with: the asset of the safety deposit, the
/// offset after which funds can be rescued, and the commitment to the
/// terms that the escrow was funded for.
#[derive(Clone, Debug, PartialEq, Eq)]
pub struct InstantiateMsg {
    pub safety_deposit_denom: String,
    pub rescue_delay: u32,
    pub immutable_hash: String,
}

/// An `InstantiateMsg` as plain values.
pub struct InstantiateMsgView {
    pub safety_deposit_denom: Seq<char>,
    pub rescue_delay: u32,
    pub immutable_hash: Seq<char>,
}

impl View for InstantiateMsg {
    type V = InstantiateMsgView;

    open spec fn view(&self) -> InstantiateMsgView {
        InstantiateMsgView {
            safety_deposit_denom: self.safety_deposit_denom@,
            rescue_delay: self.rescue_delay,
            immutable_hash: self.immutable_hash@,
        }
    }
}

/// The operations of an escrow. Each carries the terms of the swap anew.
#[derive(Clone, Debug, PartialEq, Eq)]
pub enum ExecuteMsg {
    Withdraw { secret: Vec<u8>, immutables: Immutables },
    PublicWithdraw { secret: Vec<u8>, immutables: Immutables },
    Cancel { immutables: Immutables },
    RescueFunds { token: String, amount: Uint256, immutables: Immutables },
}

/// An `ExecuteMsg` as plain values.
pub enum ExecuteMsgView {
    Withdraw { secret: Seq<u8>, immutables: ImmutablesView },
    PublicWithdraw { secret: Seq<u8>, immutables: ImmutablesView },
    Cancel { immutables: ImmutablesView },
    RescueFunds { token: Seq<char>, amount: nat, immutables: ImmutablesView },
}

impl View for ExecuteMsg {
    type V = ExecuteMsgView;

    open spec fn view(&self) -> ExecuteMsgView {
        match self {
            ExecuteMsg::Withdraw { secret, immutables } => ExecuteMsgView::Withdraw {
                secret: secret@,
                immutables: immutables@,
            },
            ExecuteMsg::PublicWithdraw { secret, immutables } => ExecuteMsgView::PublicWithdraw {
                secret: secret@,
                immutables: immutables@,
            },
            ExecuteMsg::Cancel { immutables } => ExecuteMsgView::Cancel { immutables: immutables@ },
            ExecuteMsg::RescueFunds { token, amount, immutables } => ExecuteMsgView::RescueFunds {
                token: token@,
                amount: amount@,
                immutables: immutables@,
            },
        }
    }
}

/// The queries of an escrow.
#[derive(Clone, Copy, Debug, PartialEq, Eq, Structural)]
pub enum QueryMsg {
    QueryFactoryAddress {},
    QueryEscrowDstCodeHash {},
}

} // verus!
