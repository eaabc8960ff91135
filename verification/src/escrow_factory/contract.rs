//! The operations of the factory.

use vstd::prelude::*;
use crate::chain::{
    attribute, AttributeView, CosmosMsg, CosmosMsgView, Env, MessageInfo,
    MessageInfoView, Response, ResponseView,
};
use crate::error::{ContractError, ContractErrorView, StdError, StdErrorView};
use crate::escrow_dst::contract::response_view;
use crate::escrow_dst::state::{EscrowState, EscrowView};
use crate::escrow_factory::state::{Factory, FactoryView, RESCUE_DELAY};
use crate::interfaces::escrow_dst::InstantiateMsgView;
use crate::interfaces::escrow_factory::{
    ExecuteMsg, ExecuteMsgView, InstantiateMsg, QueryMsg, QueryMsgView,
};
use crate::text::{
    hex_decode, json_string, lemma_hex_lower_is_ascii, lemma_hex_lower_round_trip, to_json_binary,
};
use crate::types::{
    commitment, commitment_bytes, Immutables, ImmutablesView, TimelockStage, Timelocks,
};
use crate::utils::{escrow_address, funding, text_result_view, validate_token_amounts};

verus! {

/// The terms with `now` as their time of deployment.
pub open spec fn stamped(terms: ImmutablesView, now: u64) -> ImmutablesView {
    ImmutablesView { timelocks: Timelocks { deployed_at: now, ..terms.timelocks }, ..terms }
}

/// The message that deploys the escrow for `terms`: under the commitment
/// to the terms as salt, with the funds of the call, and with the caller
/// as its admin. The escrow is told the asset of the safety deposit, the
/// rescue delay and the commitment.
pub open spec fn deployment(
    factory: FactoryView,
    info: MessageInfoView,
    terms: ImmutablesView,
) -> CosmosMsgView {
    CosmosMsgView::Instantiate2 {
        admin: Some(info.sender),
        code_id: factory.escrow_dst_code_id,
        msg: InstantiateMsgView {
            safety_deposit_denom: factory.safety_deposit_token,
            rescue_delay: RESCUE_DELAY,
            immutable_hash: commitment(terms),
        },
        funds: info.funds,
        label: "escrow-dst-"@ + commitment(terms).subrange(0, 8),
        salt: commitment_bytes(terms),
    }
}

/// What the creation of an escrow records.
pub open spec fn creation_attributes(terms: ImmutablesView, address: Seq<char>) -> Seq<
    AttributeView,
> {
    seq![
        attribute("method"@, "create_escrow_dst"@),
        attribute("hashlock"@, terms.hashlock),
        attribute("taker"@, terms.taker),
        attribute("salt"@, commitment(terms)),
        attribute("escrow_address"@, address),
    ]
}

/// The creation of an escrow for terms that are already stamped with the
/// time of the call. It fails where the destination chain's cancellation
/// time lies after the source chain's, then where the funds fall short,
/// then where no address can be derived.
pub open spec fn creation(
    factory: FactoryView,
    creator: Seq<u8>,
    info: MessageInfoView,
    terms: ImmutablesView,
    src_cancellation_timestamp: u64,
) -> Result<ResponseView, ContractErrorView> {
    let funded = funding(terms, info.funds, factory.safety_deposit_token);
    let address = escrow_address(terms, factory.escrow_dst_code_hash, creator);
    if terms.timelocks.stage_time(TimelockStage::DstCancellation) > src_cancellation_timestamp {
        Err(ContractErrorView::InvalidCreationTime)
    } else if funded is Err {
        Err(funded->Err_0)
    } else if address is Err {
        Err(address->Err_0)
    } else {
        Ok(
            ResponseView {
                messages: seq![deployment(factory, info, terms)],
                attributes: creation_attributes(terms, address->Ok_0),
            },
        )
    }
}

/// An escrow whose cancellation time on the destination chain lies after
/// the source chain's is not created, whatever the funds: the response
/// that would deploy it does not come about.
pub proof fn lemma_late_cancellation_is_refused(
    factory: FactoryView,
    creator: Seq<u8>,
    info: MessageInfoView,
    terms: ImmutablesView,
    src_cancellation_timestamp: u64,
)
    requires
        terms.timelocks.stage_time(TimelockStage::DstCancellation) > src_cancellation_timestamp,
    ensures
        creation(factory, creator, info, terms, src_cancellation_timestamp) == Err::<
            ResponseView,
            ContractErrorView,
        >(ContractErrorView::InvalidCreationTime),
{
}

/// An escrow is created only where its cancellation time is in order and
/// its funding is sufficient, and then by one message: the deployment
/// under the commitment to the terms.
pub proof fn lemma_creation_is_funded(
    factory: FactoryView,
    creator: Seq<u8>,
    info: MessageInfoView,
    terms: ImmutablesView,
    src_cancellation_timestamp: u64,
)
    requires
        creation(factory, creator, info, terms, src_cancellation_timestamp) is Ok,
    ensures
        terms.timelocks.stage_time(TimelockStage::DstCancellation) <= src_cancellation_timestamp,
        funding(terms, info.funds, factory.safety_deposit_token) is Ok,
        creation(factory, creator, info, terms, src_cancellation_timestamp)->Ok_0.messages
            == seq![deployment(factory, info, terms)],
{
}

/// The escrow that comes of a deployment message: what
/// `escrow_dst::contract::instantiate` makes of the message's content.
pub open spec fn deployed_escrow(msg: InstantiateMsgView) -> EscrowView {
    EscrowView {
        safety_deposit_denom: msg.safety_deposit_denom,
        rescue_delay: msg.rescue_delay,
        immutable_hash: msg.immutable_hash,
        state: EscrowState::Active,
    }
}

/// The address that a creation records is the one that the address query
/// gives for the same terms, before or after: whoever knows the terms,
/// the factory and the code can tell where the escrow stands.
pub proof fn lemma_address_is_predicted(
    factory: FactoryView,
    creator: Seq<u8>,
    info: MessageInfoView,
    terms: ImmutablesView,
    src_cancellation_timestamp: u64,
)
    requires
        creation(factory, creator, info, terms, src_cancellation_timestamp) is Ok,
    ensures
        escrow_address(terms, factory.escrow_dst_code_hash, creator) is Ok,
        creation(factory, creator, info, terms, src_cancellation_timestamp)->Ok_0.attributes[4]
            == attribute(
            "escrow_address"@,
            escrow_address(terms, factory.escrow_dst_code_hash, creator)->Ok_0,
        ),
        answer(factory, creator, QueryMsgView::AddressOfEscrowDst { immutables: terms }) == Ok::<
            Seq<u8>,
            StdErrorView,
        >(json_string(escrow_address(terms, factory.escrow_dst_code_hash, creator)->Ok_0)),
{
}

/// The escrow that the factory deploys for some terms is created with
/// the commitment to those terms, under the same commitment as salt, and
/// with the factory's asset for safety deposits and its rescue delay.
pub proof fn lemma_deployment_carries_the_commitment(
    factory: FactoryView,
    info: MessageInfoView,
    terms: ImmutablesView,
)
    ensures
        deployment(factory, info, terms) matches CosmosMsgView::Instantiate2 { msg, salt, .. } && {
            &&& salt == commitment_bytes(terms)
            &&& deployed_escrow(msg) == (EscrowView {
                safety_deposit_denom: factory.safety_deposit_token,
                rescue_delay: RESCUE_DELAY,
                immutable_hash: commitment(terms),
                state: EscrowState::Active,
            })
        },
{
}

/// What an operation does, by the message that asks for it.
pub open spec fn execution(
    factory: FactoryView,
    now: u64,
    creator: Seq<u8>,
    info: MessageInfoView,
    msg: ExecuteMsgView,
) -> Result<ResponseView, ContractErrorView> {
    match msg {
        ExecuteMsgView::CreateEscrowDst { immutables, src_cancellation_timestamp } => creation(
            factory,
            creator,
            info,
            stamped(immutables, now),
            src_cancellation_timestamp,
        ),
    }
}

/// The answer to a query: the address of the escrow for the given terms
/// as a JSON string.
pub open spec fn answer(factory: FactoryView, creator: Seq<u8>, msg: QueryMsgView) -> Result<
    Seq<u8>,
    StdErrorView,
> {
    match msg {
        QueryMsgView::AddressOfEscrowDst {
            immutables,
        } => match escrow_address(immutables, factory.escrow_dst_code_hash, creator) {
            Ok(address) => Ok(json_string(address)),
            Err(e) => Err(
                StdErrorView::GenericErr { msg: "Failed to compute address: "@ + e.message() },
            ),
        },
    }
}

/// The result of a query as plain values: the bytes and the error by
/// their views.
pub open spec fn bytes_result_view(r: Result<Vec<u8>, StdError>) -> Result<Seq<u8>, StdErrorView> {
    match r {
        Ok(bytes) => Ok(bytes@),
        Err(e) => Err(e@),
    }
}

/// Creates the factory from its message and from the checksum of the
/// escrows' code, which the chain gives for the code's number.
pub fn instantiate(msg: InstantiateMsg, escrow_dst_code_hash: Vec<u8>) -> (r: (Factory, Response))
    ensures
        r.0@ == (FactoryView {
            escrow_dst_code_id: msg.escrow_dst_code_id,
            escrow_dst_code_hash: escrow_dst_code_hash@,
            safety_deposit_token: msg@.safety_deposit_token,
        }),
        r.1@.messages == Seq::<CosmosMsgView>::empty(),
        r.1@.attributes == seq![
            attribute("method"@, "instantiate"@),
            attribute("contract"@, "escrow-factory"@),
        ],
{
    let factory = Factory {
        escrow_dst_code_id: msg.escrow_dst_code_id,
        escrow_dst_code_hash,
        safety_deposit_token: msg.safety_deposit_token,
    };
    let response = Response::new().add_attribute(
        "method",
        String::from_str("instantiate"),
    ).add_attribute("contract", String::from_str("escrow-factory"));
    assert(response@.attributes =~= seq![
        attribute("method"@, "instantiate"@),
        attribute("contract"@, "escrow-factory"@),
    ]);
    (factory, response)
}

/// Carries out the operation that `msg` asks for.
pub fn execute(factory: &Factory, env: &Env, info: MessageInfo, msg: ExecuteMsg) -> (r: Result<
    Response,
    ContractError,
>)
    ensures
        response_view(r) == execution(factory@, env.now(), env.contract_address@, info@, msg@),
{
    match msg {
        ExecuteMsg::CreateEscrowDst { immutables, src_cancellation_timestamp } => {
            let mut immutables = immutables;
            create_escrow_dst(factory, env, info, &mut immutables, src_cancellation_timestamp)
        },
    }
}

/// Creates the escrow for the given terms. The terms are stamped with the
/// time of the call, whatever comes of it. The escrow must be resolved by
/// `src_cancellation_timestamp`, the time from which the source chain
/// lets the swap be cancelled, and the funds of the call must cover the
/// amount and the safety deposit. The response then holds the one message
/// that deploys the escrow, and records the address at which it will
/// stand.
pub fn create_escrow_dst(
    factory: &Factory,
    env: &Env,
    info: MessageInfo,
    immutables: &mut Immutables,
    src_cancellation_timestamp: u64,
) -> (r: Result<Response, ContractError>)
    ensures
        final(immutables)@ == stamped(old(immutables)@, env.now()),
        response_view(r) == creation(
            factory@,
            env.contract_address@,
            info@,
            final(immutables)@,
            src_cancellation_timestamp,
        ),
{
    immutables.timelocks.set_deployed_at(env.block_time);

    match immutables.timelocks.checked_timelock(TimelockStage::DstCancellation) {
        Some(time) => {
            if time > src_cancellation_timestamp {
                return Err(ContractError::InvalidCreationTime {  });
            }
        },
        None => {
            return Err(ContractError::InvalidCreationTime {  });
        },
    }

    match validate_token_amounts(immutables, &info, factory.safety_deposit_token.as_str()) {
        Ok(_) => {},
        Err(e) => {
            return Err(e);
        },
    }

    let salt = match immutables.compute_immutables_hash() {
        Ok(salt) => salt,
        Err(e) => {
            return Err(ContractError::Std(e));
        },
    };
    proof {
        lemma_hex_lower_round_trip(commitment_bytes(immutables@));
        lemma_hex_lower_is_ascii(commitment_bytes(immutables@));
    }
    let salt_bytes = match hex_decode(salt.as_str()) {
        Ok(bytes) => bytes,
        Err(_) => {
            return Err(ContractError::Std(StdError::generic_err("Invalid salt format")));
        },
    };
    let address = match compute_escrow_address(factory, env, immutables) {
        Ok(address) => address,
        Err(e) => {
            return Err(e);
        },
    };

    let ghost terms = immutables@;
    let ghost caller = info@;
    let MessageInfo { sender, funds } = info;
    let create_escrow_msg = CosmosMsg::Instantiate2 {
        admin: Some(sender),
        code_id: factory.escrow_dst_code_id,
        msg: crate::interfaces::escrow_dst::InstantiateMsg {
            safety_deposit_denom: factory.safety_deposit_token.clone(),
            rescue_delay: RESCUE_DELAY,
            immutable_hash: salt.clone(),
        },
        funds,
        label: String::from_str("escrow-dst-").concat(salt.as_str().substring_ascii(0, 8)),
        salt: salt_bytes,
    };
    assert(create_escrow_msg@ == deployment(factory@, caller, terms));

    let response = Response::new().add_message(create_escrow_msg).add_attribute(
        "method",
        String::from_str("create_escrow_dst"),
    ).add_attribute("hashlock", immutables.hashlock.clone()).add_attribute(
        "taker",
        immutables.taker.clone(),
    ).add_attribute("salt", salt).add_attribute("escrow_address", address);
    assert(response@.messages =~= seq![deployment(factory@, caller, terms)]);
    assert(response@.attributes =~= creation_attributes(
        terms,
        escrow_address(terms, factory@.escrow_dst_code_hash, env.contract_address@)->Ok_0,
    ));
    Ok(response)
}

/// The address at which this factory, which stands at
/// `env.contract_address`, deploys the escrow for the given terms.
pub fn compute_escrow_address(factory: &Factory, env: &Env, immutables: &Immutables) -> (r: Result<
    String,
    ContractError,
>)
    ensures
        text_result_view(r) == escrow_address(
            immutables@,
            factory@.escrow_dst_code_hash,
            env.contract_address@,
        ),
{
    crate::utils::compute_escrow_address(
        immutables,
        factory.escrow_dst_code_hash.as_slice(),
        env.contract_address.as_slice(),
    )
}

/// Answers a query: the address of the escrow for the given terms, as a
/// JSON string. Nothing is deployed.
pub fn query(factory: &Factory, env: &Env, msg: QueryMsg) -> (r: Result<Vec<u8>, StdError>)
    ensures
        bytes_result_view(r) == answer(factory@, env.contract_address@, msg@),
{
    match msg {
        QueryMsg::AddressOfEscrowDst { immutables } => {
            let escrow_address = match compute_escrow_address(factory, env, &immutables) {
                Ok(address) => address,
                Err(e) => {
                    let msg = String::from_str("Failed to compute address: ").concat(
                        e.to_string().as_str(),
                    );
                    return Err(StdError::generic_err(msg.as_str()));
                },
            };
            Ok(to_json_binary(escrow_address.as_str()).unwrap())
        },
    }
}

} // verus!
