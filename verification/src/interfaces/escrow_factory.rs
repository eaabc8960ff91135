//! The messages of the escrow factory.

use vstd::prelude::*;
use crate::types::{Immutables, ImmutablesView};

verus! {

/// What the factory is created with: the code of the escrows it deploys,
/// and the asset in which safety deposits are paid.
#[derive(Clone, Debug, PartialEq, Eq)]
pub struct InstantiateMsg {
    pub escrow_dst_code_id: u64,
    pub safety_deposit_token: String,
}

/// An `InstantiateMsg` as plain values.
pub struct InstantiateMsgView {
    pub escrow_dst_code_id: u64,
    pub safety_deposit_token: Seq<char>,
}

impl View for InstantiateMsg {
    type V = InstantiateMsgView;

    open spec fn view(&self) -> InstantiateMsgView {
        InstantiateMsgView {
            escrow_dst_code_id: self.escrow_dst_code_id,
            safety_deposit_token: self.safety_deposit_token@,
        }
    }
}

/// The one operation of the factory: to create an escrow for the given
/// terms, which must be resolved by the time at which the source chain
/// lets the swap be cancelled.
#[derive(Clone, Debug, PartialEq, Eq)]
pub enum ExecuteMsg {
    CreateEscrowDst { immutables: Immutables, src_cancellation_timestamp: u64 },
}

/// An `ExecuteMsg` as plain values.
pub enum ExecuteMsgView {
    CreateEscrowDst { immutables: ImmutablesView, src_cancellation_timestamp: u64 },
}

impl View for ExecuteMsg {
    type V = ExecuteMsgView;

    open spec fn view(&self) -> ExecuteMsgView {
        match self {
            ExecuteMsg::CreateEscrowDst {
                immutables,
                src_cancellation_timestamp,
            } => ExecuteMsgView::CreateEscrowDst {
                immutables: immutables@,
                src_cancellation_timestamp: *src_cancellation_timestamp,
            },
        }
    }
}

/// The one query of the factory: the address at which an escrow for the
/// given terms stands or would stand.
#[derive(Clone, Debug, PartialEq, Eq)]
pub enum QueryMsg {
    AddressOfEscrowDst { immutables: Immutables },
}

/// A `QueryMsg` as plain values.
pub enum QueryMsgView {
    AddressOfEscrowDst { immutables: ImmutablesView },
}

impl View for QueryMsg {
    type V = QueryMsgView;

    open spec fn view(&self) -> QueryMsgView {
        match self {
            QueryMsg::AddressOfEscrowDst { immutables } => QueryMsgView::AddressOfEscrowDst {
                immutables: immutables@,
            },
        }
    }
}

} // verus!
