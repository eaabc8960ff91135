//! The terms of a swap, their time locks, and the commitment that binds
//! them.

use vstd::prelude::*;
use vstd::bytes::{spec_u32_to_le_bytes, spec_u64_to_le_bytes};
use vstd::utf8::encode_utf8;
use crate::chain::Timestamp;
use crate::error::StdError;
use crate::text::{decimal, hex_decode, hex_lower, lemma_hex_lower_round_trip};
use crate::uint256::Uint256;
use crate::utils::{is_after_timelock, keccak256, keccak256_digest};

verus! {

/// The stages of a swap on both chains. Each names an offset from the
/// time of deployment; `RescueDelay` carries its own.
#[derive(Clone, Copy, Debug, PartialEq, Eq, Structural)]
pub enum TimelockStage {
    SrcWithdrawal,
    SrcPublicWithdrawal,
    SrcCancellation,
    SrcPublicCancellation,
    DstWithdrawal,
    DstPublicWithdrawal,
    DstCancellation,
    RescueDelay(u32),
}

/// The time of deployment, in seconds, and the offset of each stage from
/// it.
#[derive(Clone, Copy, Debug, PartialEq, Eq, Structural)]
pub struct Timelocks {
    pub deployed_at: u64,
    pub src_withdrawal: u32,
    pub src_public_withdrawal: u32,
    pub src_cancellation: u32,
    pub src_public_cancellation: u32,
    pub dst_withdrawal: u32,
    pub dst_public_withdrawal: u32,
    pub dst_cancellation: u32,
}

impl Timelocks {
    /// The offset of `stage` from the time of deployment.
    pub open spec fn offset(self, stage: TimelockStage) -> u32 {
        match stage {
            TimelockStage::SrcWithdrawal => self.src_withdrawal,
            TimelockStage::SrcPublicWithdrawal => self.src_public_withdrawal,
            TimelockStage::SrcCancellation => self.src_cancellation,
            TimelockStage::SrcPublicCancellation => self.src_public_cancellation,
            TimelockStage::DstWithdrawal => self.dst_withdrawal,
            TimelockStage::DstPublicWithdrawal => self.dst_public_withdrawal,
            TimelockStage::DstCancellation => self.dst_cancellation,
            TimelockStage::RescueDelay(delay) => delay,
        }
    }

    /// The absolute time at which `stage` begins: the time of deployment
    /// plus the stage's offset.
    pub open spec fn stage_time(self, stage: TimelockStage) -> int {
        self.deployed_at + self.offset(stage)
    }

    /// Whether the stages of the destination chain follow one another:
    /// withdrawal, then public withdrawal, then cancellation. Nothing
    /// enforces this; terms without it have windows that are empty or
    /// out of order.
    pub open spec fn dst_in_order(self) -> bool {
        self.dst_withdrawal <= self.dst_public_withdrawal <= self.dst_cancellation
    }

    /// Stamps the time of deployment, in whole seconds. The offsets stay.
    pub fn set_deployed_at(&mut self, time: Timestamp)
        ensures
            *final(self) == (Timelocks { deployed_at: time.whole_seconds(), ..*old(self) }),
    {
        self.deployed_at = time.seconds()
    }

    /// The absolute time at which `stage` begins.
    pub fn get_timelock(&self, stage: TimelockStage) -> (time: u64)
        requires
            self.stage_time(stage) <= u64::MAX,
        ensures
            time == self.stage_time(stage),
    {
        let base_time: u64 = self.deployed_at;
        match stage {
            TimelockStage::SrcWithdrawal => base_time + self.src_withdrawal as u64,
            TimelockStage::SrcPublicWithdrawal => base_time + self.src_public_withdrawal as u64,
            TimelockStage::SrcCancellation => base_time + self.src_cancellation as u64,
            TimelockStage::SrcPublicCancellation => base_time
                + self.src_public_cancellation as u64,
            TimelockStage::DstWithdrawal => base_time + self.dst_withdrawal as u64,
            TimelockStage::DstPublicWithdrawal => base_time + self.dst_public_withdrawal as u64,
            TimelockStage::DstCancellation => base_time + self.dst_cancellation as u64,
            TimelockStage::RescueDelay(delay) => base_time + delay as u64,
        }
    }

    /// The absolute time at which `stage` begins, or `None` where no
    /// 64-bit time can hold it.
    pub fn checked_timelock(&self, stage: TimelockStage) -> (time: Option<u64>)
        ensures
            match time {
                Some(t) => t == self.stage_time(stage),
                None => self.stage_time(stage) > u64::MAX,
            },
    {
        let offset: u32 = match stage {
            TimelockStage::SrcWithdrawal => self.src_withdrawal,
            TimelockStage::SrcPublicWithdrawal => self.src_public_withdrawal,
            TimelockStage::SrcCancellation => self.src_cancellation,
            TimelockStage::SrcPublicCancellation => self.src_public_cancellation,
            TimelockStage::DstWithdrawal => self.dst_withdrawal,
            TimelockStage::DstPublicWithdrawal => self.dst_public_withdrawal,
            TimelockStage::DstCancellation => self.dst_cancellation,
            TimelockStage::RescueDelay(delay) => delay,
        };
        if self.deployed_at <= u64::MAX - offset as u64 {
            Some(self.get_timelock(stage))
        } else {
            None
        }
    }

    /// Whether `stage` has begun at the time `now`.
    pub fn has_reached(&self, stage: TimelockStage, now: u64) -> (reached: bool)
        ensures
            reached == (now >= self.stage_time(stage)),
    {
        match self.checked_timelock(stage) {
            Some(time) => is_after_timelock(now, time),
            None => false,
        }
    }
}

/// The terms of a swap. Once committed to, none of them changes.
#[derive(Clone, Debug, PartialEq, Eq)]
pub struct Immutables {
    pub order_hash: String,
    pub hashlock: String,
    pub maker: String,
    pub taker: String,
    pub token: String,
    pub amount: Uint256,
    pub safety_deposit: Uint256,
    pub timelocks: Timelocks,
    pub parameters: Vec<u8>,
}

/// The terms of a swap as plain values.
pub struct ImmutablesView {
    pub order_hash: Seq<char>,
    pub hashlock: Seq<char>,
    pub maker: Seq<char>,
    pub taker: Seq<char>,
    pub token: Seq<char>,
    pub amount: nat,
    pub safety_deposit: nat,
    pub timelocks: Timelocks,
    pub parameters: Seq<u8>,
}

impl View for Immutables {
    type V = ImmutablesView;

    open spec fn view(&self) -> ImmutablesView {
        ImmutablesView {
            order_hash: self.order_hash@,
            hashlock: self.hashlock@,
            maker: self.maker@,
            taker: self.taker@,
            token: self.token@,
            amount: self.amount@,
            safety_deposit: self.safety_deposit@,
            timelocks: self.timelocks,
            parameters: self.parameters@,
        }
    }
}

/// A text in the canonical encoding: the number of its UTF-8 bytes as a
/// 64-bit little-endian integer, then the bytes.
pub open spec fn encoded_text(text: Seq<char>) -> Seq<u8> {
    spec_u64_to_le_bytes(encode_utf8(text).len() as u64) + encode_utf8(text)
}

/// A byte string in the canonical encoding: its length as a 64-bit
/// little-endian integer, then the bytes.
pub open spec fn encoded_bytes(bytes: Seq<u8>) -> Seq<u8> {
    spec_u64_to_le_bytes(bytes.len() as u64) + bytes
}

/// Time locks in the canonical encoding: the time of deployment in eight
/// bytes, then the seven offsets in four bytes each, all little-endian.
pub open spec fn encoded_timelocks(t: Timelocks) -> Seq<u8> {
    spec_u64_to_le_bytes(t.deployed_at) + spec_u32_to_le_bytes(t.src_withdrawal)
        + spec_u32_to_le_bytes(t.src_public_withdrawal) + spec_u32_to_le_bytes(t.src_cancellation)
        + spec_u32_to_le_bytes(t.src_public_cancellation) + spec_u32_to_le_bytes(t.dst_withdrawal)
        + spec_u32_to_le_bytes(t.dst_public_withdrawal) + spec_u32_to_le_bytes(t.dst_cancellation)
}

/// The canonical encoding of a record of seven texts, the time locks and a
/// byte string: the encodings of its fields, one after the other.
pub open spec fn encoded_record(
    order_hash: Seq<char>,
    hashlock: Seq<char>,
    maker: Seq<char>,
    taker: Seq<char>,
    token: Seq<char>,
    amount: Seq<char>,
    safety_deposit: Seq<char>,
    timelocks: Timelocks,
    parameters: Seq<u8>,
) -> Seq<u8> {
    encoded_text(order_hash) + encoded_text(hashlock) + encoded_text(maker) + encoded_text(taker)
        + encoded_text(token) + encoded_text(amount) + encoded_text(safety_deposit)
        + encoded_timelocks(timelocks) + encoded_bytes(parameters)
}

/// The bytes whose digest is the commitment: the canonical encoding of the
/// terms, with the amounts in decimal digits and with the digest of
/// `parameters` in the place of `parameters`.
pub open spec fn commitment_preimage(terms: ImmutablesView) -> Seq<u8> {
    encoded_record(
        terms.order_hash,
        terms.hashlock,
        terms.maker,
        terms.taker,
        terms.token,
        decimal(terms.amount),
        decimal(terms.safety_deposit),
        terms.timelocks,
        keccak256_digest(terms.parameters),
    )
}

/// The commitment to the terms as bytes. It is also the salt of the
/// escrow's deployment.
pub open spec fn commitment_bytes(terms: ImmutablesView) -> Seq<u8> {
    keccak256_digest(commitment_preimage(terms))
}

/// The commitment to the terms, in lower-case hexadecimal.
pub open spec fn commitment(terms: ImmutablesView) -> Seq<char> {
    hex_lower(commitment_bytes(terms))
}

/// The error of the `bincode` crate's serializer.
#[verifier::external_type_specification]
#[verifier::external_body]
pub struct ExBincodeErrorKind(bincode::ErrorKind);

/// `bincode::serialize` on a record of seven texts, eight integers and a
/// byte string. With its default options (fixed-width little-endian
/// integers, no size limit) and a vector to write to, it succeeds, and
/// gives the fields' encodings one after the other: a text or a byte
/// string as its length in eight bytes and then its bytes, an integer in
/// as many bytes as its type has.
#[verifier::external_body]
fn bincode_serialize(
    order_hash: &str,
    hashlock: &str,
    maker: &str,
    taker: &str,
    token: &str,
    amount: &str,
    safety_deposit: &str,
    timelocks: &Timelocks,
    parameters: &[u8],
) -> (r: Result<Vec<u8>, Box<bincode::ErrorKind>>)
    ensures
        r is Ok,
        r matches Ok(bytes) ==> bytes@ == encoded_record(
            order_hash@,
            hashlock@,
            maker@,
            taker@,
            token@,
            amount@,
            safety_deposit@,
            *timelocks,
            parameters@,
        ),
{
    let t = timelocks;
    let times = (
        t.deployed_at,
        t.src_withdrawal,
        t.src_public_withdrawal,
        t.src_cancellation,
        t.src_public_cancellation,
        t.dst_withdrawal,
        t.dst_public_withdrawal,
        t.dst_cancellation,
    );
    bincode::serialize(
        &(order_hash, hashlock, maker, taker, token, amount, safety_deposit, times, parameters),
    )
}

impl Immutables {
    /// The commitment to these terms: the digest of their canonical
    /// encoding, in which the digest of `parameters` stands for
    /// `parameters`. It never fails.
    pub fn compute_immutables_hash(&self) -> (r: Result<String, StdError>)
        ensures
            r matches Ok(hash) && hash@ == commitment(self@),
            commitment_bytes(self@).len() == 32,
    {
        let parameters_hash = keccak256(self.parameters.as_slice());
        proof {
            lemma_hex_lower_round_trip(keccak256_digest(self.parameters@));
        }
        let parameters_hash_bytes = match hex_decode(parameters_hash.as_str()) {
            Ok(bytes) => bytes,
            Err(_) => {
                return Err(StdError::generic_err("Failed to decode parameters hash"));
            },
        };
        let amount = self.amount.to_string();
        let safety_deposit = self.safety_deposit.to_string();
        let serialized = match bincode_serialize(
            self.order_hash.as_str(),
            self.hashlock.as_str(),
            self.maker.as_str(),
            self.taker.as_str(),
            self.token.as_str(),
            amount.as_str(),
            safety_deposit.as_str(),
            &self.timelocks,
            parameters_hash_bytes.as_slice(),
        ) {
            Ok(bytes) => bytes,
            Err(_) => {
                return Err(StdError::serialize_err("Immutables", "Failed to serialize"));
            },
        };
        Ok(keccak256(serialized.as_slice()))
    }
}

/// The checksum of stored code, in hexadecimal, as the chain reports it.
#[derive(Clone, Debug, PartialEq, Eq)]
pub struct CodeChecksumResponse {
    pub checksum_hex: String,
}

} // verus!
