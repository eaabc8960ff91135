//! The operations of an escrow.
//!
//! Every operation takes the terms of the swap anew and first holds them
//! against the commitment that the escrow was created with. A withdrawal
//! or a cancellation then asks that the escrow is still active, and is
//! refused as `EscrowNotActive` where it is not: the first operation that
//! succeeds ends the swap. Then come the caller, the window of time, and
//! for a withdrawal the secret. Only then are the transfers worked out;
//! they are handed back together, for the chain to carry out all or none.
//! A rescue does not ask for the state: it is the backstop for whatever
//! the escrow still holds, in any state.

use vstd::prelude::*;
use crate::binding::{encodable, keccak256_collides, lemma_commitment_binds};
use crate::chain::{
    attribute, AttributeView, Coin, CoinView, CosmosMsg, CosmosMsgView, Env, MessageInfo,
    Response, ResponseView,
};
use crate::error::{ContractError, ContractErrorView, StdError};
use crate::escrow_dst::state::{Escrow, EscrowState, EscrowView};
use crate::interfaces::escrow_dst::{ExecuteMsg, ExecuteMsgView, InstantiateMsg, QueryMsg};
use crate::text::{base64_text, decimal, hex_lower, json_string, to_base64, to_json_binary};
use crate::types::{commitment, Immutables, ImmutablesView, TimelockStage};
use crate::uint256::Uint256;
use crate::utils::{keccak256_digest, unit_result_view, validate_secret};

verus! {

/// How the swap's amount is shared out on withdrawal: the fees of the
/// protocol and of the integrator, in the swap's asset, and who gets
/// them. The maker gets the rest.
#[derive(Clone, Debug, PartialEq, Eq)]
pub struct FeeInfo {
    pub protocol_fee_amount: u128,
    pub integrator_fee_amount: u128,
    pub protocol_fee_recipient: String,
    pub integrator_fee_recipient: String,
}

/// A `FeeInfo` as plain values.
pub struct FeeInfoView {
    pub protocol_fee_amount: nat,
    pub integrator_fee_amount: nat,
    pub protocol_fee_recipient: Seq<char>,
    pub integrator_fee_recipient: Seq<char>,
}

impl View for FeeInfo {
    type V = FeeInfoView;

    open spec fn view(&self) -> FeeInfoView {
        FeeInfoView {
            protocol_fee_amount: self.protocol_fee_amount as nat,
            integrator_fee_amount: self.integrator_fee_amount as nat,
            protocol_fee_recipient: self.protocol_fee_recipient@,
            integrator_fee_recipient: self.integrator_fee_recipient@,
        }
    }
}

/// Fee instructions, if any, as plain values.
pub open spec fn fee_view(fee_info: Option<&FeeInfo>) -> Option<FeeInfoView> {
    match fee_info {
        Some(fee) => Some(fee@),
        None => None,
    }
}

/// The result of an operation as plain values: the response and the
/// error by their views.
pub open spec fn response_view(r: Result<Response, ContractError>) -> Result<
    ResponseView,
    ContractErrorView,
> {
    match r {
        Ok(response) => Ok(response@),
        Err(e) => Err(e@),
    }
}

/// The transfer of `amount` of `denom` to `to`.
pub open spec fn transfer(to: Seq<char>, denom: Seq<char>, amount: nat) -> CosmosMsgView {
    CosmosMsgView::Send { to_address: to, amount: CoinView { denom, amount } }
}

/// The transfer of `amount` of `denom` to `to`, unless the amount is zero.
pub open spec fn transfer_unless_zero(to: Seq<char>, denom: Seq<char>, amount: nat) -> Seq<
    CosmosMsgView,
> {
    if amount > 0 {
        seq![transfer(to, denom, amount)]
    } else {
        Seq::empty()
    }
}

/// What is left of the swap's amount for the maker once the fees are
/// taken.
pub open spec fn maker_amount(terms: ImmutablesView, fee: FeeInfoView) -> int {
    terms.amount - (fee.protocol_fee_amount + fee.integrator_fee_amount)
}

/// The transfers of a withdrawal, in order: the integrator's fee, the
/// protocol's fee, the rest of the amount to the maker, and the safety
/// deposit, in its own asset, to the caller. None of them is of zero.
pub open spec fn withdrawal_transfers(
    escrow: EscrowView,
    caller: Seq<char>,
    terms: ImmutablesView,
    fee: FeeInfoView,
) -> Seq<CosmosMsgView> {
    transfer_unless_zero(fee.integrator_fee_recipient, terms.token, fee.integrator_fee_amount)
        + transfer_unless_zero(fee.protocol_fee_recipient, terms.token, fee.protocol_fee_amount)
        + transfer_unless_zero(terms.maker, terms.token, maker_amount(terms, fee) as nat)
        + transfer_unless_zero(caller, escrow.safety_deposit_denom, terms.safety_deposit)
}

/// What a withdrawal records.
pub open spec fn withdrawal_attributes(
    secret: Seq<u8>,
    terms: ImmutablesView,
    fee: FeeInfoView,
) -> Seq<AttributeView> {
    seq![
        attribute("method"@, "_withdraw"@),
        attribute("secret"@, base64_text(secret)),
        attribute("maker"@, terms.maker),
        attribute("amount"@, decimal(maker_amount(terms, fee) as nat)),
        attribute("integrator_fee"@, decimal(fee.integrator_fee_amount)),
        attribute("protocol_fee"@, decimal(fee.protocol_fee_amount)),
        attribute("safety_deposit"@, decimal(terms.safety_deposit)),
    ]
}

/// The secret check and the sharing out of the funds. It fails on a
/// secret that does not hash to the hashlock, then on fee instructions
/// that did not decode, then on fees that exceed the amount, then on an
/// amount to transfer that no 128-bit integer holds.
pub open spec fn fee_and_transfer(
    escrow: EscrowView,
    caller: Seq<char>,
    secret: Seq<u8>,
    terms: ImmutablesView,
    fee: Option<FeeInfoView>,
) -> Result<ResponseView, ContractErrorView> {
    if hex_lower(keccak256_digest(secret)) != terms.hashlock {
        Err(ContractErrorView::InvalidSecret)
    } else if fee is None {
        Err(ContractErrorView::ErrorFeeParsing)
    } else if maker_amount(terms, fee->0) < 0 {
        Err(ContractErrorView::InsufficientEscrowBalance)
    } else if maker_amount(terms, fee->0) > u128::MAX || terms.safety_deposit > u128::MAX {
        Err(ContractErrorView::UintConversionFailed)
    } else {
        Ok(
            ResponseView {
                messages: withdrawal_transfers(escrow, caller, terms, fee->0),
                attributes: withdrawal_attributes(secret, terms, fee->0),
            },
        )
    }
}

/// A withdrawal by the taker, on an active escrow, open from the
/// destination chain's withdrawal time until its cancellation time.
pub open spec fn withdrawal(
    escrow: EscrowView,
    now: u64,
    caller: Seq<char>,
    secret: Seq<u8>,
    terms: ImmutablesView,
    fee: Option<FeeInfoView>,
) -> Result<ResponseView, ContractErrorView> {
    if commitment(terms) != escrow.immutable_hash {
        Err(ContractErrorView::InvalidImmutables)
    } else if escrow.state != EscrowState::Active {
        Err(ContractErrorView::EscrowNotActive)
    } else if caller != terms.taker {
        Err(ContractErrorView::Unauthorized)
    } else if now < terms.timelocks.stage_time(TimelockStage::DstWithdrawal) {
        Err(ContractErrorView::TimelockNotReached)
    } else if now >= terms.timelocks.stage_time(TimelockStage::DstCancellation) {
        Err(ContractErrorView::TimelockHasCrossed)
    } else {
        fee_and_transfer(escrow, caller, secret, terms, fee)
    }
}

/// A withdrawal by anyone, on an active escrow, open from the
/// destination chain's public withdrawal time until its cancellation
/// time.
pub open spec fn public_withdrawal(
    escrow: EscrowView,
    now: u64,
    caller: Seq<char>,
    secret: Seq<u8>,
    terms: ImmutablesView,
    fee: Option<FeeInfoView>,
) -> Result<ResponseView, ContractErrorView> {
    if commitment(terms) != escrow.immutable_hash {
        Err(ContractErrorView::InvalidImmutables)
    } else if escrow.state != EscrowState::Active {
        Err(ContractErrorView::EscrowNotActive)
    } else if now < terms.timelocks.stage_time(TimelockStage::DstPublicWithdrawal) {
        Err(ContractErrorView::TimelockNotReached)
    } else if now >= terms.timelocks.stage_time(TimelockStage::DstCancellation) {
        Err(ContractErrorView::TimelockHasCrossed)
    } else {
        fee_and_transfer(escrow, caller, secret, terms, fee)
    }
}

/// A cancellation by the taker, on an active escrow, open from the
/// destination chain's cancellation time on: the whole amount goes back
/// to the taker, and the safety deposit to the caller.
pub open spec fn cancellation(
    escrow: EscrowView,
    now: u64,
    caller: Seq<char>,
    terms: ImmutablesView,
) -> Result<ResponseView, ContractErrorView> {
    if commitment(terms) != escrow.immutable_hash {
        Err(ContractErrorView::InvalidImmutables)
    } else if escrow.state != EscrowState::Active {
        Err(ContractErrorView::EscrowNotActive)
    } else if caller != terms.taker {
        Err(ContractErrorView::Unauthorized)
    } else if now < terms.timelocks.stage_time(TimelockStage::DstCancellation) {
        Err(ContractErrorView::TimelockNotReached)
    } else if terms.amount > u128::MAX || terms.safety_deposit > u128::MAX {
        Err(ContractErrorView::UintConversionFailed)
    } else {
        Ok(
            ResponseView {
                messages: seq![
                    transfer(terms.taker, terms.token, terms.amount),
                    transfer(caller, escrow.safety_deposit_denom, terms.safety_deposit),
                ],
                attributes: seq![attribute("method"@, "cancel"@)],
            },
        )
    }
}

/// A rescue by the taker, open once the escrow's rescue delay has passed
/// since deployment: the given amount of the given asset goes to the
/// taker, whatever the terms of the swap say and whatever state the
/// escrow is in.
pub open spec fn rescue(
    escrow: EscrowView,
    now: u64,
    caller: Seq<char>,
    token: Seq<char>,
    amount: nat,
    terms: ImmutablesView,
) -> Result<ResponseView, ContractErrorView> {
    if commitment(terms) != escrow.immutable_hash {
        Err(ContractErrorView::InvalidImmutables)
    } else if caller != terms.taker {
        Err(ContractErrorView::Unauthorized)
    } else if now < terms.timelocks.stage_time(TimelockStage::RescueDelay(escrow.rescue_delay)) {
        Err(ContractErrorView::TimelockNotReached)
    } else if amount > u128::MAX {
        Err(ContractErrorView::UintConversionFailed)
    } else {
        Ok(
            ResponseView {
                messages: seq![transfer(terms.taker, token, amount)],
                attributes: seq![attribute("method"@, "rescue_funds"@)],
            },
        )
    }
}

/// What an operation does, by the message that asks for it.
pub open spec fn execution(
    escrow: EscrowView,
    now: u64,
    caller: Seq<char>,
    msg: ExecuteMsgView,
    fee: Option<FeeInfoView>,
) -> Result<ResponseView, ContractErrorView> {
    match msg {
        ExecuteMsgView::Withdraw { secret, immutables } => withdrawal(
            escrow,
            now,
            caller,
            secret,
            immutables,
            fee,
        ),
        ExecuteMsgView::PublicWithdraw { secret, immutables } => public_withdrawal(
            escrow,
            now,
            caller,
            secret,
            immutables,
            fee,
        ),
        ExecuteMsgView::Cancel { immutables } => cancellation(escrow, now, caller, immutables),
        ExecuteMsgView::RescueFunds { token, amount, immutables } => rescue(
            escrow,
            now,
            caller,
            token,
            amount,
            immutables,
        ),
    }
}

/// The state that a rescue that succeeds leaves an escrow in: `Rescued`
/// where the escrow was active, and else the final state that it was in.
pub open spec fn state_after_rescue(state: EscrowState) -> EscrowState {
    if state == EscrowState::Active {
        EscrowState::Rescued
    } else {
        state
    }
}

/// The state that the operation asked for by `msg` leaves an escrow in
/// when it succeeds on an escrow in the state `state`.
pub open spec fn state_after(state: EscrowState, msg: ExecuteMsgView) -> EscrowState {
    match msg {
        ExecuteMsgView::Withdraw { .. } => EscrowState::Withdrawn,
        ExecuteMsgView::PublicWithdraw { .. } => EscrowState::Withdrawn,
        ExecuteMsgView::Cancel { .. } => EscrowState::Cancelled,
        ExecuteMsgView::RescueFunds { .. } => state_after_rescue(state),
    }
}

/// The escrow as the operation asked for by `msg` leaves it: in the state
/// that the operation leads to where it succeeds, and as it was where it
/// fails.
pub open spec fn escrow_after(
    escrow: EscrowView,
    now: u64,
    caller: Seq<char>,
    msg: ExecuteMsgView,
    fee: Option<FeeInfoView>,
) -> EscrowView {
    if execution(escrow, now, caller, msg, fee) is Ok {
        EscrowView { state: state_after(escrow.state, msg), ..escrow }
    } else {
        escrow
    }
}

/// The terms that a message carries.
pub open spec fn terms_of(msg: ExecuteMsgView) -> ImmutablesView {
    match msg {
        ExecuteMsgView::Withdraw { immutables, .. } => immutables,
        ExecuteMsgView::PublicWithdraw { immutables, .. } => immutables,
        ExecuteMsgView::Cancel { immutables } => immutables,
        ExecuteMsgView::RescueFunds { immutables, .. } => immutables,
    }
}

/// Every operation is refused as `InvalidImmutables` exactly where the
/// terms it carries do not have the commitment that the escrow was
/// created with, whoever calls, at whatever time, with whatever else.
pub proof fn lemma_forged_terms_are_refused(
    escrow: EscrowView,
    now: u64,
    caller: Seq<char>,
    msg: ExecuteMsgView,
    fee: Option<FeeInfoView>,
)
    ensures
        execution(escrow, now, caller, msg, fee) == Err::<ResponseView, ContractErrorView>(
            ContractErrorView::InvalidImmutables,
        ) <==> commitment(terms_of(msg)) != escrow.immutable_hash,
{
}

/// An escrow that was created with the commitment to some terms carries
/// out operations on those terms only: any message that it does not
/// refuse as `InvalidImmutables` carries the same terms, field by field,
/// unless Keccak-256 collides.
pub proof fn lemma_escrow_serves_its_terms_only(
    escrow: EscrowView,
    terms: ImmutablesView,
    now: u64,
    caller: Seq<char>,
    msg: ExecuteMsgView,
    fee: Option<FeeInfoView>,
)
    requires
        escrow.immutable_hash == commitment(terms),
        encodable(terms),
        encodable(terms_of(msg)),
        execution(escrow, now, caller, msg, fee) != Err::<
            ResponseView,
            ContractErrorView,
        >(ContractErrorView::InvalidImmutables),
    ensures
        terms_of(msg) == terms || keccak256_collides(),
{
    lemma_forged_terms_are_refused(escrow, now, caller, msg, fee);
    lemma_commitment_binds(terms_of(msg), terms);
}

/// The sum of what the transfers among `messages` pay out, whatever the
/// asset.
pub open spec fn total_paid(messages: Seq<CosmosMsgView>) -> nat
    decreases messages.len(),
{
    if messages.len() == 0 {
        0
    } else {
        total_paid(messages.drop_last()) + match messages.last() {
            CosmosMsgView::Send { amount, .. } => amount.amount,
            _ => 0,
        }
    }
}

/// Whether the terms are those that the escrow was created for, the
/// escrow is active, the caller is the taker, and the time lies in the
/// taker's window for withdrawal.
pub open spec fn may_withdraw(
    escrow: EscrowView,
    now: u64,
    caller: Seq<char>,
    terms: ImmutablesView,
) -> bool {
    &&& commitment(terms) == escrow.immutable_hash
    &&& escrow.state == EscrowState::Active
    &&& caller == terms.taker
    &&& terms.timelocks.stage_time(TimelockStage::DstWithdrawal) <= now
        < terms.timelocks.stage_time(TimelockStage::DstCancellation)
}

/// On an active escrow a withdrawal is refused before its window opens,
/// and again from the time at which the swap can be cancelled.
pub proof fn lemma_withdrawal_window(
    escrow: EscrowView,
    now: u64,
    caller: Seq<char>,
    secret: Seq<u8>,
    terms: ImmutablesView,
    fee: Option<FeeInfoView>,
)
    requires
        commitment(terms) == escrow.immutable_hash,
        escrow.state == EscrowState::Active,
        caller == terms.taker,
    ensures
        now < terms.timelocks.stage_time(TimelockStage::DstWithdrawal) ==> withdrawal(
            escrow,
            now,
            caller,
            secret,
            terms,
            fee,
        ) == Err::<ResponseView, ContractErrorView>(ContractErrorView::TimelockNotReached),
        terms.timelocks.stage_time(TimelockStage::DstWithdrawal) <= now
            && terms.timelocks.stage_time(TimelockStage::DstCancellation) <= now ==> withdrawal(
            escrow,
            now,
            caller,
            secret,
            terms,
            fee,
        ) == Err::<ResponseView, ContractErrorView>(ContractErrorView::TimelockHasCrossed),
        may_withdraw(escrow, now, caller, terms) ==> withdrawal(
            escrow,
            now,
            caller,
            secret,
            terms,
            fee,
        ) == fee_and_transfer(escrow, caller, secret, terms, fee),
{
}

/// A secret that does not hash to the hashlock is refused as
/// `InvalidSecret`, whatever the fee instructions say. (`withdraw` leaves
/// the escrow as it was on every refusal.)
pub proof fn lemma_wrong_secret_is_refused(
    escrow: EscrowView,
    now: u64,
    caller: Seq<char>,
    secret: Seq<u8>,
    terms: ImmutablesView,
    fee: Option<FeeInfoView>,
)
    requires
        may_withdraw(escrow, now, caller, terms),
        hex_lower(keccak256_digest(secret)) != terms.hashlock,
    ensures
        withdrawal(escrow, now, caller, secret, terms, fee) == Err::<
            ResponseView,
            ContractErrorView,
        >(ContractErrorView::InvalidSecret),
{
}

/// Fees that together exceed the amount are refused as
/// `InsufficientEscrowBalance`: nothing is transferred. (`withdraw` leaves
/// the escrow as it was on every refusal.)
pub proof fn lemma_excessive_fees_are_refused(
    escrow: EscrowView,
    now: u64,
    caller: Seq<char>,
    secret: Seq<u8>,
    terms: ImmutablesView,
    fee: FeeInfoView,
)
    requires
        may_withdraw(escrow, now, caller, terms),
        hex_lower(keccak256_digest(secret)) == terms.hashlock,
        fee.protocol_fee_amount + fee.integrator_fee_amount > terms.amount,
    ensures
        withdrawal(escrow, now, caller, secret, terms, Some(fee)) == Err::<
            ResponseView,
            ContractErrorView,
        >(ContractErrorView::InsufficientEscrowBalance),
{
}

/// A withdrawal that succeeds pays out the whole amount and the whole
/// safety deposit: each fee to its recipient, the rest of the amount to
/// the maker, the safety deposit to the caller.
pub proof fn lemma_withdrawal_pays_out_everything(
    escrow: EscrowView,
    caller: Seq<char>,
    secret: Seq<u8>,
    terms: ImmutablesView,
    fee: FeeInfoView,
)
    requires
        fee_and_transfer(escrow, caller, secret, terms, Some(fee)) is Ok,
    ensures
        total_paid(fee_and_transfer(escrow, caller, secret, terms, Some(fee))->Ok_0.messages)
            == terms.amount + terms.safety_deposit,
{
    let a = transfer_unless_zero(
        fee.integrator_fee_recipient,
        terms.token,
        fee.integrator_fee_amount,
    );
    let b = transfer_unless_zero(fee.protocol_fee_recipient, terms.token, fee.protocol_fee_amount);
    let c = transfer_unless_zero(terms.maker, terms.token, maker_amount(terms, fee) as nat);
    let d = transfer_unless_zero(caller, escrow.safety_deposit_denom, terms.safety_deposit);
    lemma_total_paid_of_one(fee.integrator_fee_recipient, terms.token, fee.integrator_fee_amount);
    lemma_total_paid_of_one(fee.protocol_fee_recipient, terms.token, fee.protocol_fee_amount);
    lemma_total_paid_of_one(terms.maker, terms.token, maker_amount(terms, fee) as nat);
    lemma_total_paid_of_one(caller, escrow.safety_deposit_denom, terms.safety_deposit);
    lemma_total_paid_of_both(a, b);
    lemma_total_paid_of_both(a + b, c);
    lemma_total_paid_of_both(a + b + c, d);
}

/// A transfer that is left out where its amount is zero pays out its
/// amount.
proof fn lemma_total_paid_of_one(to: Seq<char>, denom: Seq<char>, amount: nat)
    ensures
        total_paid(transfer_unless_zero(to, denom, amount)) == amount,
{
    let one = transfer_unless_zero(to, denom, amount);
    if amount > 0 {
        assert(one.drop_last() =~= Seq::<CosmosMsgView>::empty());
        assert(total_paid(one.drop_last()) == 0);
    }
}

/// What two lists of messages pay out together is the sum of what each
/// pays out.
proof fn lemma_total_paid_of_both(a: Seq<CosmosMsgView>, b: Seq<CosmosMsgView>)
    ensures
        total_paid(a + b) == total_paid(a) + total_paid(b),
    decreases b.len(),
{
    if b.len() == 0 {
        assert(a + b =~= a);
    } else {
        assert((a + b).drop_last() =~= a + b.drop_last());
        assert((a + b).last() == b.last());
        lemma_total_paid_of_both(a, b.drop_last());
    }
}

/// Where the stages of the destination chain follow one another, the
/// taker can withdraw whenever anyone can: what a public withdrawal gives
/// the taker, a withdrawal gives as well.
pub proof fn lemma_public_window_lies_in_the_takers(
    escrow: EscrowView,
    now: u64,
    secret: Seq<u8>,
    terms: ImmutablesView,
    fee: Option<FeeInfoView>,
)
    requires
        terms.timelocks.dst_in_order(),
        public_withdrawal(escrow, now, terms.taker, secret, terms, fee) is Ok,
    ensures
        withdrawal(escrow, now, terms.taker, secret, terms, fee) == public_withdrawal(
            escrow,
            now,
            terms.taker,
            secret,
            terms,
            fee,
        ),
{
}

/// On an active escrow a cancellation is refused before the cancellation
/// time. From then on it gives the taker the whole amount and the caller
/// the safety deposit, provided that each fits a transfer.
pub proof fn lemma_cancellation(
    escrow: EscrowView,
    now: u64,
    caller: Seq<char>,
    terms: ImmutablesView,
)
    requires
        commitment(terms) == escrow.immutable_hash,
        escrow.state == EscrowState::Active,
        caller == terms.taker,
    ensures
        now < terms.timelocks.stage_time(TimelockStage::DstCancellation) ==> cancellation(
            escrow,
            now,
            caller,
            terms,
        ) == Err::<ResponseView, ContractErrorView>(ContractErrorView::TimelockNotReached),
        now >= terms.timelocks.stage_time(TimelockStage::DstCancellation) && terms.amount
            <= u128::MAX && terms.safety_deposit <= u128::MAX ==> {
            &&& cancellation(escrow, now, caller, terms) is Ok
            &&& cancellation(escrow, now, caller, terms)->Ok_0.messages == seq![
                transfer(terms.taker, terms.token, terms.amount),
                transfer(caller, escrow.safety_deposit_denom, terms.safety_deposit),
            ]
            &&& total_paid(cancellation(escrow, now, caller, terms)->Ok_0.messages) == terms.amount
                + terms.safety_deposit
        },
{
    if now >= terms.timelocks.stage_time(TimelockStage::DstCancellation) && terms.amount
        <= u128::MAX && terms.safety_deposit <= u128::MAX {
        let messages = cancellation(escrow, now, caller, terms)->Ok_0.messages;
        assert(messages.drop_last() =~= seq![transfer(terms.taker, terms.token, terms.amount)]);
        assert(messages.drop_last().drop_last() =~= Seq::<CosmosMsgView>::empty());
        assert(total_paid(messages.drop_last().drop_last()) == 0);
        assert(total_paid(messages.drop_last()) == terms.amount);
    }
}

/// At no time can the same terms be both withdrawn on and cancelled:
/// withdrawal, public or not, ends where cancellation begins.
pub proof fn lemma_withdrawal_excludes_cancellation(
    escrow: EscrowView,
    now: u64,
    withdrawer: Seq<char>,
    canceller: Seq<char>,
    secret: Seq<u8>,
    terms: ImmutablesView,
    fee: Option<FeeInfoView>,
)
    ensures
        !(withdrawal(escrow, now, withdrawer, secret, terms, fee) is Ok && cancellation(
            escrow,
            now,
            canceller,
            terms,
        ) is Ok),
        !(public_withdrawal(escrow, now, withdrawer, secret, terms, fee) is Ok && cancellation(
            escrow,
            now,
            canceller,
            terms,
        ) is Ok),
{
}

/// Whether `msg` asks for funds of the swap: for a withdrawal or a
/// cancellation, and not for a rescue.
pub open spec fn pays_the_swap(msg: ExecuteMsgView) -> bool {
    !(msg is RescueFunds)
}

/// An escrow that is no longer active pays the funds of the swap to no
/// one: every withdrawal and every cancellation is refused, as
/// `EscrowNotActive` where the terms are the escrow's, and nothing is
/// transferred.
pub proof fn lemma_finished_escrow_pays_nothing(
    escrow: EscrowView,
    now: u64,
    caller: Seq<char>,
    msg: ExecuteMsgView,
    fee: Option<FeeInfoView>,
)
    requires
        escrow.state != EscrowState::Active,
        pays_the_swap(msg),
    ensures
        execution(escrow, now, caller, msg, fee) is Err,
        commitment(terms_of(msg)) == escrow.immutable_hash ==> execution(
            escrow,
            now,
            caller,
            msg,
            fee,
        ) == Err::<ResponseView, ContractErrorView>(ContractErrorView::EscrowNotActive),
        escrow_after(escrow, now, caller, msg, fee) == escrow,
{
}

/// A state other than `Active` is final: whatever operation is asked
/// for, by whomever and whenever, and whether it succeeds or fails, it
/// leaves an escrow that is no longer active exactly as it was.
pub proof fn lemma_final_states_are_final(
    escrow: EscrowView,
    now: u64,
    caller: Seq<char>,
    msg: ExecuteMsgView,
    fee: Option<FeeInfoView>,
)
    requires
        escrow.state != EscrowState::Active,
    ensures
        escrow_after(escrow, now, caller, msg, fee) == escrow,
{
}

/// The funds of a swap are paid out once. After any operation that has
/// succeeded, be it a withdrawal, a cancellation or a rescue, the escrow
/// is no longer active, and every later withdrawal and cancellation is
/// refused, whoever asks for it, at whatever time, with whatever secret
/// and terms.
pub proof fn lemma_the_swap_is_paid_once(
    escrow: EscrowView,
    now: u64,
    caller: Seq<char>,
    msg: ExecuteMsgView,
    fee: Option<FeeInfoView>,
    later: u64,
    later_caller: Seq<char>,
    later_msg: ExecuteMsgView,
    later_fee: Option<FeeInfoView>,
)
    requires
        execution(escrow, now, caller, msg, fee) is Ok,
        pays_the_swap(later_msg),
    ensures
        escrow_after(escrow, now, caller, msg, fee).state != EscrowState::Active,
        pays_the_swap(msg) ==> escrow.state == EscrowState::Active,
        execution(
            escrow_after(escrow, now, caller, msg, fee),
            later,
            later_caller,
            later_msg,
            later_fee,
        ) is Err,
{
}

/// Creates an escrow from what its factory passes to it. It starts out
/// `Active`.
pub fn instantiate(msg: InstantiateMsg) -> (r: (Escrow, Response))
    ensures
        r.0@ == (EscrowView {
            safety_deposit_denom: msg@.safety_deposit_denom,
            rescue_delay: msg@.rescue_delay,
            immutable_hash: msg@.immutable_hash,
            state: EscrowState::Active,
        }),
        r.1@.messages == Seq::<CosmosMsgView>::empty(),
        r.1@.attributes == seq![attribute("method"@, "instantiate"@)],
{
    let escrow = Escrow {
        safety_deposit_denom: msg.safety_deposit_denom,
        rescue_delay: msg.rescue_delay,
        immutable_hash: msg.immutable_hash,
        state: EscrowState::Active,
    };
    let response = Response::new().add_attribute("method", String::from_str("instantiate"));
    assert(response@.attributes =~= seq![attribute("method"@, "instantiate"@)]);
    (escrow, response)
}

/// Holds the terms against the commitment that the escrow was created
/// with.
pub fn validate_immutables(escrow: &Escrow, immutables: &Immutables) -> (r: Result<
    (),
    ContractError,
>)
    ensures
        unit_result_view(r) == if commitment(immutables@) == escrow@.immutable_hash {
            Ok::<(), ContractErrorView>(())
        } else {
            Err(ContractErrorView::InvalidImmutables)
        },
{
    let immutables_hash = match immutables.compute_immutables_hash() {
        Ok(hash) => hash,
        Err(e) => {
            return Err(ContractError::Std(e));
        },
    };
    if escrow.immutable_hash != immutables_hash {
        return Err(ContractError::InvalidImmutables {  });
    }
    Ok(())
}

/// Whether the escrow is still active.
fn is_active(escrow: &Escrow) -> (active: bool)
    ensures
        active == (escrow.state == EscrowState::Active),
{
    match escrow.state {
        EscrowState::Active => true,
        _ => false,
    }
}

/// The message that transfers `amount` of `denom` to `to`.
fn send(to: &String, denom: &String, amount: u128) -> (msg: CosmosMsg)
    ensures
        msg@ == transfer(to@, denom@, amount as nat),
{
    CosmosMsg::Send { to_address: to.clone(), amount: Coin { denom: denom.clone(), amount } }
}

/// Checks the secret and shares out the funds: the fees as
/// `fee_info` says, the rest of the amount to the maker, the safety
/// deposit to the caller. `fee_info` is what the terms' `parameters`
/// decode to, or `None` where they do not decode.
///
/// This is the last step of both withdrawals and changes nothing. It
/// looks neither at the terms' commitment, nor at the escrow's state, nor
/// at the time: `withdraw` and `public_withdraw` have done so before.
pub fn _withdraw(
    escrow: &Escrow,
    info: &MessageInfo,
    secret: &[u8],
    immutables: &Immutables,
    fee_info: Option<&FeeInfo>,
) -> (r: Result<Response, ContractError>)
    ensures
        response_view(r) == fee_and_transfer(
            escrow@,
            info@.sender,
            secret@,
            immutables@,
            fee_view(fee_info),
        ),
{
    if !validate_secret(secret, immutables.hashlock.as_str()) {
        return Err(ContractError::InvalidSecret {  });
    }
    let fee_info = match fee_info {
        Some(fee_info) => fee_info,
        None => {
            return Err(ContractError::ErrorFeeParsing {  });
        },
    };
    let ghost fee = fee_info@;
    let ghost terms = immutables@;

    let mut response = Response::new();

    if fee_info.integrator_fee_amount > 0 {
        response = response.add_message(
            send(
                &fee_info.integrator_fee_recipient,
                &immutables.token,
                fee_info.integrator_fee_amount,
            ),
        );
    }
    let ghost first = transfer_unless_zero(
        fee.integrator_fee_recipient,
        terms.token,
        fee.integrator_fee_amount,
    );
    assert(response@.messages =~= first);

    if fee_info.protocol_fee_amount > 0 {
        response = response.add_message(
            send(&fee_info.protocol_fee_recipient, &immutables.token, fee_info.protocol_fee_amount),
        );
    }
    let ghost second = first + transfer_unless_zero(
        fee.protocol_fee_recipient,
        terms.token,
        fee.protocol_fee_amount,
    );
    assert(response@.messages =~= second);

    let (total_fees, _wrapped) = Uint256::from_u128(fee_info.integrator_fee_amount).overflowing_add(
        Uint256::from_u128(fee_info.protocol_fee_amount),
    );
    let remaining_amount = match immutables.amount.checked_sub(total_fees) {
        Some(remaining) => remaining,
        None => {
            return Err(ContractError::InsufficientEscrowBalance {  });
        },
    };

    if !remaining_amount.is_zero() {
        let amount: u128 = match remaining_amount.to_u128() {
            Some(amount) => amount,
            None => {
                return Err(ContractError::UintConversionFailed {  });
            },
        };
        response = response.add_message(send(&immutables.maker, &immutables.token, amount));
    }
    let ghost third = second + transfer_unless_zero(
        terms.maker,
        terms.token,
        maker_amount(terms, fee) as nat,
    );
    assert(response@.messages =~= third);

    if !immutables.safety_deposit.is_zero() {
        let amount: u128 = match immutables.safety_deposit.to_u128() {
            Some(amount) => amount,
            None => {
                return Err(ContractError::UintConversionFailed {  });
            },
        };
        response = response.add_message(send(&info.sender, &escrow.safety_deposit_denom, amount));
    }
    assert(response@.messages =~= withdrawal_transfers(escrow@, info@.sender, terms, fee));

    let response = response.add_attribute("method", String::from_str("_withdraw")).add_attribute(
        "secret",
        to_base64(secret),
    ).add_attribute("maker", immutables.maker.clone()).add_attribute(
        "amount",
        remaining_amount.to_string(),
    ).add_attribute(
        "integrator_fee",
        Uint256::from_u128(fee_info.integrator_fee_amount).to_string(),
    ).add_attribute(
        "protocol_fee",
        Uint256::from_u128(fee_info.protocol_fee_amount).to_string(),
    ).add_attribute("safety_deposit", immutables.safety_deposit.to_string());
    assert(response@.attributes =~= withdrawal_attributes(secret@, terms, fee));
    Ok(response)
}

/// Withdrawal by the taker: with the secret, on an active escrow, from
/// the withdrawal time of the destination chain until its cancellation
/// time. On success the escrow is `Withdrawn`; on failure it is as it
/// was. An escrow that is no longer active gives `EscrowNotActive`.
pub fn withdraw(
    escrow: &mut Escrow,
    env: &Env,
    info: &MessageInfo,
    secret: &[u8],
    immutables: &Immutables,
    fee_info: Option<&FeeInfo>,
) -> (r: Result<Response, ContractError>)
    ensures
        response_view(r) == withdrawal(
            old(escrow)@,
            env.now(),
            info@.sender,
            secret@,
            immutables@,
            fee_view(fee_info),
        ),
        r is Ok ==> *final(escrow) == (Escrow { state: EscrowState::Withdrawn, ..*old(escrow) }),
        r is Err ==> *final(escrow) == *old(escrow),
{
    let now: u64 = env.block_time.seconds();
    match validate_immutables(escrow, immutables) {
        Ok(_) => {},
        Err(e) => {
            return Err(e);
        },
    }
    if !is_active(escrow) {
        return Err(ContractError::EscrowNotActive {  });
    }
    if info.sender != immutables.taker {
        return Err(ContractError::Unauthorized {  });
    }
    if !immutables.timelocks.has_reached(TimelockStage::DstWithdrawal, now) {
        return Err(ContractError::TimelockNotReached {  });
    }
    if immutables.timelocks.has_reached(TimelockStage::DstCancellation, now) {
        return Err(ContractError::TimelockHasCrossed {  });
    }
    let response = match _withdraw(escrow, info, secret, immutables, fee_info) {
        Ok(response) => response,
        Err(e) => {
            return Err(e);
        },
    };
    escrow.state = EscrowState::Withdrawn;
    Ok(response)
}

/// Withdrawal by anyone: with the secret, on an active escrow, from the
/// public withdrawal time of the destination chain until its
/// cancellation time. The caller gets the safety deposit. On success the
/// escrow is `Withdrawn`; on failure it is as it was. An escrow that is
/// no longer active gives `EscrowNotActive`.
pub fn public_withdraw(
    escrow: &mut Escrow,
    env: &Env,
    info: &MessageInfo,
    secret: &[u8],
    immutables: &Immutables,
    fee_info: Option<&FeeInfo>,
) -> (r: Result<Response, ContractError>)
    ensures
        response_view(r) == public_withdrawal(
            old(escrow)@,
            env.now(),
            info@.sender,
            secret@,
            immutables@,
            fee_view(fee_info),
        ),
        r is Ok ==> *final(escrow) == (Escrow { state: EscrowState::Withdrawn, ..*old(escrow) }),
        r is Err ==> *final(escrow) == *old(escrow),
{
    let now: u64 = env.block_time.seconds();
    match validate_immutables(escrow, immutables) {
        Ok(_) => {},
        Err(e) => {
            return Err(e);
        },
    }
    if !is_active(escrow) {
        return Err(ContractError::EscrowNotActive {  });
    }
    if !immutables.timelocks.has_reached(TimelockStage::DstPublicWithdrawal, now) {
        return Err(ContractError::TimelockNotReached {  });
    }
    if immutables.timelocks.has_reached(TimelockStage::DstCancellation, now) {
        return Err(ContractError::TimelockHasCrossed {  });
    }
    let response = match _withdraw(escrow, info, secret, immutables, fee_info) {
        Ok(response) => response,
        Err(e) => {
            return Err(e);
        },
    };
    escrow.state = EscrowState::Withdrawn;
    Ok(response)
}

/// Cancellation by the taker, on an active escrow, from the cancellation
/// time of the destination chain on. The taker gets the whole amount
/// back and the caller the safety deposit. On success the escrow is
/// `Cancelled`; on failure it is as it was. An escrow that is no longer
/// active gives `EscrowNotActive`.
pub fn cancel(escrow: &mut Escrow, env: &Env, info: &MessageInfo, immutables: &Immutables) -> (r:
    Result<Response, ContractError>)
    ensures
        response_view(r) == cancellation(old(escrow)@, env.now(), info@.sender, immutables@),
        r is Ok ==> *final(escrow) == (Escrow { state: EscrowState::Cancelled, ..*old(escrow) }),
        r is Err ==> *final(escrow) == *old(escrow),
{
    let now: u64 = env.block_time.seconds();
    match validate_immutables(escrow, immutables) {
        Ok(_) => {},
        Err(e) => {
            return Err(e);
        },
    }
    if !is_active(escrow) {
        return Err(ContractError::EscrowNotActive {  });
    }
    if info.sender != immutables.taker {
        return Err(ContractError::Unauthorized {  });
    }
    if !immutables.timelocks.has_reached(TimelockStage::DstCancellation, now) {
        return Err(ContractError::TimelockNotReached {  });
    }
    let amount: u128 = match immutables.amount.to_u128() {
        Some(amount) => amount,
        None => {
            return Err(ContractError::UintConversionFailed {  });
        },
    };
    let safety_deposit: u128 = match immutables.safety_deposit.to_u128() {
        Some(amount) => amount,
        None => {
            return Err(ContractError::UintConversionFailed {  });
        },
    };
    let response = Response::new().add_message(
        send(&immutables.taker, &immutables.token, amount),
    ).add_message(send(&info.sender, &escrow.safety_deposit_denom, safety_deposit)).add_attribute(
        "method",
        String::from_str("cancel"),
    );
    assert(response@.messages =~= seq![
        transfer(immutables@.taker, immutables@.token, immutables@.amount),
        transfer(info@.sender, escrow@.safety_deposit_denom, immutables@.safety_deposit),
    ]);
    assert(response@.attributes =~= seq![attribute("method"@, "cancel"@)]);
    escrow.state = EscrowState::Cancelled;
    Ok(response)
}

/// Rescue by the taker, once the escrow's rescue delay has passed since
/// deployment: `amount` of `token` goes to the taker. Neither is held
/// against the terms of the swap, and the escrow's state is not asked
/// for: a rescue sweeps what the escrow still holds, in any state. On
/// success an escrow that was active is `Rescued`, and one that was not
/// stays in its final state; on failure it is as it was.
pub fn rescue_funds(
    escrow: &mut Escrow,
    env: &Env,
    info: &MessageInfo,
    token: String,
    amount: Uint256,
    immutables: &Immutables,
) -> (r: Result<Response, ContractError>)
    ensures
        response_view(r) == rescue(
            old(escrow)@,
            env.now(),
            info@.sender,
            token@,
            amount@,
            immutables@,
        ),
        r is Ok ==> *final(escrow) == (Escrow {
            state: state_after_rescue(old(escrow).state),
            ..*old(escrow)
        }),
        r is Err ==> *final(escrow) == *old(escrow),
{
    let now: u64 = env.block_time.seconds();
    match validate_immutables(escrow, immutables) {
        Ok(_) => {},
        Err(e) => {
            return Err(e);
        },
    }
    if info.sender != immutables.taker {
        return Err(ContractError::Unauthorized {  });
    }
    if !immutables.timelocks.has_reached(TimelockStage::RescueDelay(escrow.rescue_delay), now) {
        return Err(ContractError::TimelockNotReached {  });
    }
    let amount: u128 = match amount.to_u128() {
        Some(amount) => amount,
        None => {
            return Err(ContractError::UintConversionFailed {  });
        },
    };
    let response = Response::new().add_message(send(&immutables.taker, &token, amount)).add_attribute(
        "method",
        String::from_str("rescue_funds"),
    );
    assert(response@.messages =~= seq![transfer(immutables@.taker, token@, amount as nat)]);
    assert(response@.attributes =~= seq![attribute("method"@, "rescue_funds"@)]);
    if is_active(escrow) {
        escrow.state = EscrowState::Rescued;
    }
    Ok(response)
}

/// Carries out the operation that `msg` asks for. `fee_info` is what the
/// `parameters` of the terms in `msg` decode to, or `None` where they do
/// not decode; only the withdrawals read it. On success the escrow is in
/// the state that the operation leads to; on failure it is as it was. An
/// escrow that is no longer active stays as it is in either case.
pub fn execute(
    escrow: &mut Escrow,
    env: &Env,
    info: &MessageInfo,
    msg: ExecuteMsg,
    fee_info: Option<&FeeInfo>,
) -> (r: Result<Response, ContractError>)
    ensures
        response_view(r) == execution(
            old(escrow)@,
            env.now(),
            info@.sender,
            msg@,
            fee_view(fee_info),
        ),
        r is Ok ==> *final(escrow) == (Escrow {
            state: state_after(old(escrow).state, msg@),
            ..*old(escrow)
        }),
        final(escrow)@ == escrow_after(
            old(escrow)@,
            env.now(),
            info@.sender,
            msg@,
            fee_view(fee_info),
        ),
        r is Err ==> *final(escrow) == *old(escrow),
{
    match msg {
        ExecuteMsg::Withdraw { secret, immutables } => withdraw(
            escrow,
            env,
            info,
            secret.as_slice(),
            &immutables,
            fee_info,
        ),
        ExecuteMsg::PublicWithdraw { secret, immutables } => public_withdraw(
            escrow,
            env,
            info,
            secret.as_slice(),
            &immutables,
            fee_info,
        ),
        ExecuteMsg::Cancel { immutables } => cancel(escrow, env, info, &immutables),
        ExecuteMsg::RescueFunds { token, amount, immutables } => rescue_funds(
            escrow,
            env,
            info,
            token,
            amount,
            &immutables,
        ),
    }
}

/// Answers a query. An escrow has nothing to tell: every query gets the
/// JSON string "no query".
pub fn query(msg: QueryMsg) -> (r: Result<Vec<u8>, StdError>)
    ensures
        r matches Ok(bytes) && bytes@ == json_string("no query"@),
{
    Ok(to_json_binary("no query").unwrap())
}

} // verus!
