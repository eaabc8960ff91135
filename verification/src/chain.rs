//! What the host chain hands to a call, and what a call hands back for the
//! chain to carry out.

use vstd::prelude::*;
use crate::interfaces::escrow_dst::{InstantiateMsg, InstantiateMsgView};

verus! {

/// A point in time, in nanoseconds since the epoch.
#[derive(Clone, Copy, Debug, PartialEq, Eq, Structural)]
pub struct Timestamp {
    pub nanos: u64,
}

impl Timestamp {
    /// The whole seconds since the epoch.
    pub open spec fn whole_seconds(self) -> u64 {
        self.nanos / 1_000_000_000
    }

    /// The time `nanos` nanoseconds after the epoch.
    pub fn from_nanos(nanos: u64) -> (t: Timestamp)
        ensures
            t.nanos == nanos,
    {
        Timestamp { nanos }
    }

    /// The time `seconds` seconds after the epoch.
    pub fn from_seconds(seconds: u64) -> (t: Timestamp)
        requires
            seconds * 1_000_000_000 <= u64::MAX,
        ensures
            t.nanos == seconds * 1_000_000_000,
            t.whole_seconds() == seconds,
    {
        Timestamp { nanos: seconds * 1_000_000_000 }
    }

    /// The whole seconds since the epoch; what is left of a second is
    /// dropped.
    pub fn seconds(&self) -> (s: u64)
        ensures
            s == self.whole_seconds(),
    {
        self.nanos / 1_000_000_000
    }
}

/// An amount of one asset.
#[derive(Clone, Debug, PartialEq, Eq)]
pub struct Coin {
    pub denom: String,
    pub amount: u128,
}

/// A `Coin` as plain values.
pub struct CoinView {
    pub denom: Seq<char>,
    pub amount: nat,
}

impl View for Coin {
    type V = CoinView;

    open spec fn view(&self) -> CoinView {
        CoinView { denom: self.denom@, amount: self.amount as nat }
    }
}

/// The coins of a list as plain values, in order.
pub open spec fn coins_view(coins: Seq<Coin>) -> Seq<CoinView> {
    coins.map_values(|c: Coin| c@)
}

/// Who made a call, and the funds that came with it.
#[derive(Clone, Debug, PartialEq, Eq)]
pub struct MessageInfo {
    pub sender: String,
    pub funds: Vec<Coin>,
}

/// A `MessageInfo` as plain values.
pub struct MessageInfoView {
    pub sender: Seq<char>,
    pub funds: Seq<CoinView>,
}

impl View for MessageInfo {
    type V = MessageInfoView;

    open spec fn view(&self) -> MessageInfoView {
        MessageInfoView { sender: self.sender@, funds: coins_view(self.funds@) }
    }
}

/// The time of the block in which a call runs, and the canonical address
/// of the contract that is called.
#[derive(Clone, Debug, PartialEq, Eq)]
pub struct Env {
    pub block_time: Timestamp,
    pub contract_address: Vec<u8>,
}

impl Env {
    /// The time of the call in whole seconds.
    pub open spec fn now(self) -> u64 {
        self.block_time.whole_seconds()
    }
}

/// Something for the chain to carry out once the call has returned: a
/// transfer of one coin out of the contract's balance, or the deployment
/// of an escrow at the address that its code, its creator and `salt`
/// determine.
#[derive(Clone, Debug, PartialEq, Eq)]
pub enum CosmosMsg {
    Send { to_address: String, amount: Coin },
    Instantiate2 {
        admin: Option<String>,
        code_id: u64,
        msg: InstantiateMsg,
        funds: Vec<Coin>,
        label: String,
        salt: Vec<u8>,
    },
}

/// A `CosmosMsg` as plain values.
pub enum CosmosMsgView {
    Send { to_address: Seq<char>, amount: CoinView },
    Instantiate2 {
        admin: Option<Seq<char>>,
        code_id: u64,
        msg: InstantiateMsgView,
        funds: Seq<CoinView>,
        label: Seq<char>,
        salt: Seq<u8>,
    },
}

impl View for CosmosMsg {
    type V = CosmosMsgView;

    open spec fn view(&self) -> CosmosMsgView {
        match self {
            CosmosMsg::Send { to_address, amount } => CosmosMsgView::Send {
                to_address: to_address@,
                amount: amount@,
            },
            CosmosMsg::Instantiate2 {
                admin,
                code_id,
                msg,
                funds,
                label,
                salt,
            } => CosmosMsgView::Instantiate2 {
                admin: match admin {
                    Some(a) => Some(a@),
                    None => None,
                },
                code_id: *code_id,
                msg: msg@,
                funds: coins_view(funds@),
                label: label@,
                salt: salt@,
            },
        }
    }
}

/// A key and a value that a call leaves in the chain's record of it.
#[derive(Clone, Debug, PartialEq, Eq)]
pub struct Attribute {
    pub key: String,
    pub value: String,
}

/// An `Attribute` as plain values.
pub struct AttributeView {
    pub key: Seq<char>,
    pub value: Seq<char>,
}

impl View for Attribute {
    type V = AttributeView;

    open spec fn view(&self) -> AttributeView {
        AttributeView { key: self.key@, value: self.value@ }
    }
}

/// The attribute with the given key and value.
pub open spec fn attribute(key: Seq<char>, value: Seq<char>) -> AttributeView {
    AttributeView { key, value }
}

/// What a successful call hands back: the messages to carry out, all or
/// none, and the attributes to record, both in order.
#[derive(Clone, Debug, PartialEq, Eq)]
pub struct Response {
    pub messages: Vec<CosmosMsg>,
    pub attributes: Vec<Attribute>,
}

/// A `Response` as plain values.
pub struct ResponseView {
    pub messages: Seq<CosmosMsgView>,
    pub attributes: Seq<AttributeView>,
}

impl View for Response {
    type V = ResponseView;

    open spec fn view(&self) -> ResponseView {
        ResponseView {
            messages: self.messages@.map_values(|m: CosmosMsg| m@),
            attributes: self.attributes@.map_values(|a: Attribute| a@),
        }
    }
}

impl Response {
    /// A response with no message and no attribute.
    pub fn new() -> (r: Response)
        ensures
            r@.messages == Seq::<CosmosMsgView>::empty(),
            r@.attributes == Seq::<AttributeView>::empty(),
    {
        let r = Response { messages: Vec::new(), attributes: Vec::new() };
        assert(r@.messages =~= Seq::<CosmosMsgView>::empty());
        assert(r@.attributes =~= Seq::<AttributeView>::empty());
        r
    }

    /// The response with `msg` added after its messages.
    pub fn add_message(self, msg: CosmosMsg) -> (r: Response)
        ensures
            r@.messages == self@.messages.push(msg@),
            r@.attributes == self@.attributes,
    {
        let mut r = self;
        r.messages.push(msg);
        assert(r@.messages =~= self@.messages.push(msg@));
        r
    }

    /// The response with the attribute `key`: `value` added after its
    /// attributes.
    pub fn add_attribute(self, key: &str, value: String) -> (r: Response)
        ensures
            r@.messages == self@.messages,
            r@.attributes == self@.attributes.push(attribute(key@, value@)),
    {
        let mut r = self;
        r.attributes.push(Attribute { key: String::from_str(key), value });
        assert(r@.attributes =~= self@.attributes.push(attribute(key@, value@)));
        r
    }
}

} // verus!
