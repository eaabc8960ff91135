use htlc_escrow::chain::{Attribute, Coin, CosmosMsg, Env, MessageInfo, Response, Timestamp};
use htlc_escrow::error::ContractError;
use htlc_escrow::escrow_dst::contract::{
    _withdraw, cancel, execute, instantiate, public_withdraw, query, rescue_funds,
    validate_immutables, withdraw, FeeInfo,
};
use htlc_escrow::escrow_dst::state::{Escrow, EscrowState};
use htlc_escrow::interfaces::escrow_dst::{ExecuteMsg, InstantiateMsg, QueryMsg};
use htlc_escrow::types::{Immutables, Timelocks};
use htlc_escrow::uint256::Uint256;
use htlc_escrow::utils::keccak256;

const T: u64 = 1_700_000_000;
const SECRET: &[u8] = b"my_secret";

fn terms() -> Immutables {
    Immutables {
        order_hash: "order-1".to_string(),
        hashlock: keccak256(SECRET),
        maker: "maker".to_string(),
        taker: "taker".to_string(),
        token: "uatom".to_string(),
        amount: Uint256::from_u128(1000),
        safety_deposit: Uint256::from_u128(10),
        timelocks: Timelocks {
            deployed_at: T,
            src_withdrawal: 10,
            src_public_withdrawal: 20,
            src_cancellation: 30,
            src_public_cancellation: 40,
            dst_withdrawal: 100,
            dst_public_withdrawal: 200,
            dst_cancellation: 500,
        },
        parameters: b"fee instructions".to_vec(),
    }
}

fn escrow_for(t: &Immutables) -> Escrow {
    let (escrow, _) = instantiate(InstantiateMsg {
        safety_deposit_denom: "uosmo".to_string(),
        rescue_delay: 86400,
        immutable_hash: t.compute_immutables_hash().unwrap(),
    });
    escrow
}

fn at(seconds: u64) -> Env {
    Env { block_time: Timestamp::from_seconds(seconds), contract_address: b"escrow".to_vec() }
}

fn from(sender: &str) -> MessageInfo {
    MessageInfo { sender: sender.to_string(), funds: Vec::new() }
}

fn fees(protocol: u128, integrator: u128) -> FeeInfo {
    FeeInfo {
        protocol_fee_amount: protocol,
        integrator_fee_amount: integrator,
        protocol_fee_recipient: "protocol".to_string(),
        integrator_fee_recipient: "integrator".to_string(),
    }
}

fn send(to: &str, denom: &str, amount: u128) -> CosmosMsg {
    CosmosMsg::Send {
        to_address: to.to_string(),
        amount: Coin { denom: denom.to_string(), amount },
    }
}

fn attr(key: &str, value: &str) -> Attribute {
    Attribute { key: key.to_string(), value: value.to_string() }
}

fn paid(response: &Response) -> u128 {
    let mut total = 0;
    for m in &response.messages {
        if let CosmosMsg::Send { amount, .. } = m {
            total += amount.amount;
        }
    }
    total
}

#[test]
fn instantiate_starts_active() {
    let (escrow, response) = instantiate(InstantiateMsg {
        safety_deposit_denom: "uosmo".to_string(),
        rescue_delay: 7,
        immutable_hash: "abc".to_string(),
    });
    assert_eq!(
        escrow,
        Escrow {
            safety_deposit_denom: "uosmo".to_string(),
            rescue_delay: 7,
            immutable_hash: "abc".to_string(),
            state: EscrowState::Active,
        }
    );
    assert!(response.messages.is_empty());
    assert_eq!(response.attributes, vec![attr("method", "instantiate")]);
}

#[test]
fn validate_immutables_holds_terms_against_the_commitment() {
    let t = terms();
    let escrow = escrow_for(&t);
    assert_eq!(validate_immutables(&escrow, &t), Ok(()));
    let mut forged = terms();
    forged.amount = Uint256::from_u128(1);
    assert_eq!(validate_immutables(&escrow, &forged), Err(ContractError::InvalidImmutables {}));
    let mut restamped = terms();
    restamped.timelocks.deployed_at = T + 1;
    assert_eq!(validate_immutables(&escrow, &restamped), Err(ContractError::InvalidImmutables {}));
}

#[test]
fn withdraw_window_opens_at_the_withdrawal_time() {
    let t = terms();
    let f = fees(50, 30);

    let mut escrow = escrow_for(&t);
    assert_eq!(
        withdraw(&mut escrow, &at(T + 99), &from("taker"), SECRET, &t, Some(&f)),
        Err(ContractError::TimelockNotReached {})
    );
    assert_eq!(escrow.state, EscrowState::Active);

    assert!(withdraw(&mut escrow, &at(T + 100), &from("taker"), SECRET, &t, Some(&f)).is_ok());
    assert_eq!(escrow.state, EscrowState::Withdrawn);

    let mut escrow = escrow_for(&t);
    assert!(withdraw(&mut escrow, &at(T + 499), &from("taker"), SECRET, &t, Some(&f)).is_ok());

    let mut escrow = escrow_for(&t);
    assert_eq!(
        withdraw(&mut escrow, &at(T + 500), &from("taker"), SECRET, &t, Some(&f)),
        Err(ContractError::TimelockHasCrossed {})
    );
    assert_eq!(escrow.state, EscrowState::Active);
    assert_eq!(
        withdraw(&mut escrow, &at(T + 100_000), &from("taker"), SECRET, &t, Some(&f)),
        Err(ContractError::TimelockHasCrossed {})
    );
}

#[test]
fn withdraw_goes_by_whole_seconds() {
    let t = terms();
    let f = fees(50, 30);
    let mut escrow = escrow_for(&t);
    let almost = Env {
        block_time: Timestamp::from_nanos((T + 100) * 1_000_000_000 - 1),
        contract_address: Vec::new(),
    };
    assert_eq!(
        withdraw(&mut escrow, &almost, &from("taker"), SECRET, &t, Some(&f)),
        Err(ContractError::TimelockNotReached {})
    );
}

#[test]
fn withdraw_with_a_wrong_secret_is_refused() {
    let t = terms();
    let f = fees(50, 30);
    let mut escrow = escrow_for(&t);
    let before = escrow.clone();
    assert_eq!(
        withdraw(&mut escrow, &at(T + 100), &from("taker"), b"wrong_secret", &t, Some(&f)),
        Err(ContractError::InvalidSecret {})
    );
    assert_eq!(escrow, before);
    assert_eq!(escrow.state, EscrowState::Active);
    assert_eq!(
        withdraw(&mut escrow, &at(T + 100), &from("taker"), b"", &t, None),
        Err(ContractError::InvalidSecret {})
    );
}

#[test]
fn withdraw_shares_out_amount_and_safety_deposit() {
    let t = terms();
    let f = fees(50, 30);
    let mut escrow = escrow_for(&t);
    let response = withdraw(&mut escrow, &at(T + 100), &from("taker"), SECRET, &t, Some(&f)).unwrap();
    assert_eq!(
        response.messages,
        vec![
            send("integrator", "uatom", 30),
            send("protocol", "uatom", 50),
            send("maker", "uatom", 920),
            send("taker", "uosmo", 10),
        ]
    );
    assert_eq!(paid(&response), 1000 + 10);
    assert_eq!(
        response.attributes,
        vec![
            attr("method", "_withdraw"),
            attr("secret", "bXlfc2VjcmV0"),
            attr("maker", "maker"),
            attr("amount", "920"),
            attr("integrator_fee", "30"),
            attr("protocol_fee", "50"),
            attr("safety_deposit", "10"),
        ]
    );
    assert_eq!(escrow.state, EscrowState::Withdrawn);
}

#[test]
fn withdraw_leaves_out_transfers_of_zero() {
    let mut t = terms();
    t.safety_deposit = Uint256::zero();
    let mut escrow = escrow_for(&t);
    let response =
        withdraw(&mut escrow, &at(T + 100), &from("taker"), SECRET, &t, Some(&fees(0, 0))).unwrap();
    assert_eq!(response.messages, vec![send("maker", "uatom", 1000)]);

    let mut escrow = escrow_for(&t);
    let response =
        withdraw(&mut escrow, &at(T + 100), &from("taker"), SECRET, &t, Some(&fees(600, 400)))
            .unwrap();
    assert_eq!(
        response.messages,
        vec![send("integrator", "uatom", 400), send("protocol", "uatom", 600)]
    );
    assert_eq!(paid(&response), 1000);
    assert_eq!(response.attributes[3], attr("amount", "0"));
}

#[test]
fn withdraw_with_fees_above_the_amount_is_refused() {
    let t = terms();
    let mut escrow = escrow_for(&t);
    let before = escrow.clone();
    assert_eq!(
        withdraw(&mut escrow, &at(T + 100), &from("taker"), SECRET, &t, Some(&fees(600, 401))),
        Err(ContractError::InsufficientEscrowBalance {})
    );
    assert_eq!(escrow, before);
    assert_eq!(
        withdraw(&mut escrow, &at(T + 100), &from("taker"), SECRET, &t, Some(&fees(1001, 0))),
        Err(ContractError::InsufficientEscrowBalance {})
    );
    assert_eq!(
        withdraw(
            &mut escrow,
            &at(T + 100),
            &from("taker"),
            SECRET,
            &t,
            Some(&fees(u128::MAX, u128::MAX))
        ),
        Err(ContractError::InsufficientEscrowBalance {})
    );
    assert_eq!(escrow.state, EscrowState::Active);
}

#[test]
fn withdraw_takes_fees_whose_sum_exceeds_128_bits() {
    let mut t = terms();
    t.amount = Uint256 { hi: 1, lo: u128::MAX - 1 };
    t.safety_deposit = Uint256::zero();
    let mut escrow = escrow_for(&t);
    let response = withdraw(
        &mut escrow,
        &at(T + 100),
        &from("taker"),
        SECRET,
        &t,
        Some(&fees(u128::MAX, u128::MAX)),
    )
    .unwrap();
    assert_eq!(
        response.messages,
        vec![send("integrator", "uatom", u128::MAX), send("protocol", "uatom", u128::MAX)]
    );
}

#[test]
fn withdraw_without_decoded_fee_instructions_is_refused() {
    let t = terms();
    let mut escrow = escrow_for(&t);
    assert_eq!(
        withdraw(&mut escrow, &at(T + 100), &from("taker"), SECRET, &t, None),
        Err(ContractError::ErrorFeeParsing {})
    );
    assert_eq!(escrow.state, EscrowState::Active);
}

#[test]
fn withdraw_refuses_amounts_that_no_transfer_holds() {
    let mut t = terms();
    t.amount = Uint256 { hi: 1, lo: 0 };
    let mut escrow = escrow_for(&t);
    assert_eq!(
        withdraw(&mut escrow, &at(T + 100), &from("taker"), SECRET, &t, Some(&fees(0, 0))),
        Err(ContractError::UintConversionFailed {})
    );
    let mut t = terms();
    t.safety_deposit = Uint256 { hi: 1, lo: 0 };
    let mut escrow = escrow_for(&t);
    assert_eq!(
        withdraw(&mut escrow, &at(T + 100), &from("taker"), SECRET, &t, Some(&fees(50, 30))),
        Err(ContractError::UintConversionFailed {})
    );
    assert_eq!(escrow.state, EscrowState::Active);
}

#[test]
fn withdraw_is_for_the_taker_only() {
    let t = terms();
    let mut escrow = escrow_for(&t);
    assert_eq!(
        withdraw(&mut escrow, &at(T + 100), &from("maker"), SECRET, &t, Some(&fees(50, 30))),
        Err(ContractError::Unauthorized {})
    );
    assert_eq!(
        withdraw(&mut escrow, &at(T + 99), &from("maker"), b"wrong", &t, None),
        Err(ContractError::Unauthorized {})
    );
    assert_eq!(escrow.state, EscrowState::Active);
}

#[test]
fn every_operation_checks_the_terms_first() {
    let t = terms();
    let mut forged = terms();
    forged.taker = "mallory".to_string();
    let mut escrow = escrow_for(&t);
    let before = escrow.clone();
    let bad = Err(ContractError::InvalidImmutables {});
    assert_eq!(withdraw(&mut escrow, &at(T), &from("mallory"), b"x", &forged, None), bad);
    assert_eq!(withdraw(&mut escrow, &at(T + 100), &from("eve"), SECRET, &forged, None), bad);
    assert_eq!(public_withdraw(&mut escrow, &at(T), &from("eve"), b"x", &forged, None), bad);
    assert_eq!(cancel(&mut escrow, &at(T), &from("eve"), &forged), bad);
    assert_eq!(
        rescue_funds(&mut escrow, &at(T), &from("eve"), "uatom".to_string(), Uint256::zero(), &forged),
        bad
    );
    assert_eq!(escrow, before);
}

#[test]
fn public_withdraw_is_open_to_anyone_in_its_window() {
    let t = terms();
    let f = fees(50, 30);
    let mut escrow = escrow_for(&t);
    assert_eq!(
        public_withdraw(&mut escrow, &at(T + 199), &from("anyone"), SECRET, &t, Some(&f)),
        Err(ContractError::TimelockNotReached {})
    );
    assert_eq!(
        public_withdraw(&mut escrow, &at(T + 500), &from("anyone"), SECRET, &t, Some(&f)),
        Err(ContractError::TimelockHasCrossed {})
    );
    assert_eq!(
        public_withdraw(&mut escrow, &at(T + 200), &from("anyone"), b"wrong", &t, Some(&f)),
        Err(ContractError::InvalidSecret {})
    );
    assert_eq!(escrow.state, EscrowState::Active);
    let response =
        public_withdraw(&mut escrow, &at(T + 200), &from("anyone"), SECRET, &t, Some(&f)).unwrap();
    assert_eq!(
        response.messages,
        vec![
            send("integrator", "uatom", 30),
            send("protocol", "uatom", 50),
            send("maker", "uatom", 920),
            send("anyone", "uosmo", 10),
        ]
    );
    assert_eq!(escrow.state, EscrowState::Withdrawn);
}

#[test]
fn cancel_opens_at_the_cancellation_time() {
    let t = terms();
    let mut escrow = escrow_for(&t);
    assert_eq!(
        cancel(&mut escrow, &at(T + 499), &from("taker"), &t),
        Err(ContractError::TimelockNotReached {})
    );
    assert_eq!(escrow.state, EscrowState::Active);
    let response = cancel(&mut escrow, &at(T + 500), &from("taker"), &t).unwrap();
    assert_eq!(
        response.messages,
        vec![send("taker", "uatom", 1000), send("taker", "uosmo", 10)]
    );
    assert_eq!(response.attributes, vec![attr("method", "cancel")]);
    assert_eq!(paid(&response), 1010);
    assert_eq!(escrow.state, EscrowState::Cancelled);

    let mut escrow = escrow_for(&t);
    assert!(cancel(&mut escrow, &at(T + 1_000_000), &from("taker"), &t).is_ok());
    assert_eq!(escrow.state, EscrowState::Cancelled);
}

#[test]
fn cancel_is_for_the_taker_only() {
    let t = terms();
    let mut escrow = escrow_for(&t);
    assert_eq!(
        cancel(&mut escrow, &at(T + 500), &from("maker"), &t),
        Err(ContractError::Unauthorized {})
    );
    assert_eq!(
        cancel(&mut escrow, &at(T), &from("maker"), &t),
        Err(ContractError::Unauthorized {})
    );
    assert_eq!(escrow.state, EscrowState::Active);
}

#[test]
fn cancel_transfers_amounts_of_zero_too() {
    let mut t = terms();
    t.amount = Uint256::zero();
    t.safety_deposit = Uint256::zero();
    let mut escrow = escrow_for(&t);
    let response = cancel(&mut escrow, &at(T + 500), &from("taker"), &t).unwrap();
    assert_eq!(response.messages, vec![send("taker", "uatom", 0), send("taker", "uosmo", 0)]);
}

#[test]
fn cancel_refuses_amounts_that_no_transfer_holds() {
    let mut t = terms();
    t.amount = Uint256 { hi: 1, lo: 0 };
    let mut escrow = escrow_for(&t);
    assert_eq!(
        cancel(&mut escrow, &at(T + 500), &from("taker"), &t),
        Err(ContractError::UintConversionFailed {})
    );
    let mut t = terms();
    t.safety_deposit = Uint256 { hi: 1, lo: 0 };
    let mut escrow = escrow_for(&t);
    assert_eq!(
        cancel(&mut escrow, &at(T + 500), &from("taker"), &t),
        Err(ContractError::UintConversionFailed {})
    );
    assert_eq!(escrow.state, EscrowState::Active);
}

#[test]
fn no_time_lets_both_withdraw_and_cancel() {
    let t = terms();
    let f = fees(50, 30);
    for now in [T, T + 99, T + 100, T + 200, T + 499, T + 500, T + 501, T + 90_000] {
        let mut a = escrow_for(&t);
        let mut b = escrow_for(&t);
        let mut c = escrow_for(&t);
        let w = withdraw(&mut a, &at(now), &from("taker"), SECRET, &t, Some(&f)).is_ok();
        let p = public_withdraw(&mut b, &at(now), &from("taker"), SECRET, &t, Some(&f)).is_ok();
        let x = cancel(&mut c, &at(now), &from("taker"), &t).is_ok();
        assert!(!(w && x));
        assert!(!(p && x));
    }
}

#[test]
fn rescue_opens_after_the_rescue_delay() {
    let t = terms();
    let mut escrow = escrow_for(&t);
    assert_eq!(
        rescue_funds(
            &mut escrow,
            &at(T + 86399),
            &from("taker"),
            "ustray".to_string(),
            Uint256::from_u128(77),
            &t
        ),
        Err(ContractError::TimelockNotReached {})
    );
    assert_eq!(escrow.state, EscrowState::Active);
    let response = rescue_funds(
        &mut escrow,
        &at(T + 86400),
        &from("taker"),
        "ustray".to_string(),
        Uint256::from_u128(77),
        &t,
    )
    .unwrap();
    assert_eq!(response.messages, vec![send("taker", "ustray", 77)]);
    assert_eq!(response.attributes, vec![attr("method", "rescue_funds")]);
    assert_eq!(escrow.state, EscrowState::Rescued);
}

#[test]
fn rescue_is_for_the_taker_only_and_needs_a_transferable_amount() {
    let t = terms();
    let mut escrow = escrow_for(&t);
    assert_eq!(
        rescue_funds(
            &mut escrow,
            &at(T + 86400),
            &from("maker"),
            "uatom".to_string(),
            Uint256::from_u128(1),
            &t
        ),
        Err(ContractError::Unauthorized {})
    );
    assert_eq!(
        rescue_funds(
            &mut escrow,
            &at(T + 86400),
            &from("taker"),
            "uatom".to_string(),
            Uint256 { hi: 1, lo: 0 },
            &t
        ),
        Err(ContractError::UintConversionFailed {})
    );
    assert_eq!(escrow.state, EscrowState::Active);
}

#[test]
fn rescue_uses_the_delay_that_the_escrow_was_created_with() {
    let t = terms();
    let (mut escrow, _) = instantiate(InstantiateMsg {
        safety_deposit_denom: "uosmo".to_string(),
        rescue_delay: 5,
        immutable_hash: t.compute_immutables_hash().unwrap(),
    });
    assert_eq!(
        rescue_funds(&mut escrow, &at(T + 4), &from("taker"), "u".to_string(), Uint256::zero(), &t),
        Err(ContractError::TimelockNotReached {})
    );
    let response =
        rescue_funds(&mut escrow, &at(T + 5), &from("taker"), "u".to_string(), Uint256::zero(), &t)
            .unwrap();
    assert_eq!(response.messages, vec![send("taker", "u", 0)]);
}

#[test]
fn stage_times_beyond_the_last_time_are_never_reached() {
    let mut t = terms();
    t.timelocks.deployed_at = u64::MAX - 50;
    let mut escrow = escrow_for(&t);
    assert_eq!(
        withdraw(&mut escrow, &at(18_446_744_073), &from("taker"), SECRET, &t, Some(&fees(0, 0))),
        Err(ContractError::TimelockNotReached {})
    );
    assert_eq!(
        cancel(&mut escrow, &at(18_446_744_073), &from("taker"), &t),
        Err(ContractError::TimelockNotReached {})
    );
}

#[test]
fn fee_and_transfer_alone_checks_secret_then_fees() {
    let t = terms();
    let escrow = escrow_for(&t);
    assert_eq!(
        _withdraw(&escrow, &from("anyone"), b"wrong", &t, None),
        Err(ContractError::InvalidSecret {})
    );
    assert_eq!(
        _withdraw(&escrow, &from("anyone"), SECRET, &t, None),
        Err(ContractError::ErrorFeeParsing {})
    );
    let response = _withdraw(&escrow, &from("anyone"), SECRET, &t, Some(&fees(1, 2))).unwrap();
    assert_eq!(
        response.messages,
        vec![
            send("integrator", "uatom", 2),
            send("protocol", "uatom", 1),
            send("maker", "uatom", 997),
            send("anyone", "uosmo", 10),
        ]
    );
}

#[test]
fn execute_dispatches_by_message() {
    let t = terms();
    let f = fees(50, 30);

    let mut escrow = escrow_for(&t);
    let mut same = escrow_for(&t);
    let msg = ExecuteMsg::Withdraw { secret: SECRET.to_vec(), immutables: t.clone() };
    assert_eq!(
        execute(&mut escrow, &at(T + 100), &from("taker"), msg, Some(&f)),
        withdraw(&mut same, &at(T + 100), &from("taker"), SECRET, &t, Some(&f))
    );
    assert_eq!(escrow.state, EscrowState::Withdrawn);

    let mut escrow = escrow_for(&t);
    let mut same = escrow_for(&t);
    let msg = ExecuteMsg::PublicWithdraw { secret: SECRET.to_vec(), immutables: t.clone() };
    assert_eq!(
        execute(&mut escrow, &at(T + 200), &from("anyone"), msg, Some(&f)),
        public_withdraw(&mut same, &at(T + 200), &from("anyone"), SECRET, &t, Some(&f))
    );
    assert_eq!(escrow.state, EscrowState::Withdrawn);

    let mut escrow = escrow_for(&t);
    let mut same = escrow_for(&t);
    let msg = ExecuteMsg::Cancel { immutables: t.clone() };
    assert_eq!(
        execute(&mut escrow, &at(T + 500), &from("taker"), msg, None),
        cancel(&mut same, &at(T + 500), &from("taker"), &t)
    );
    assert_eq!(escrow.state, EscrowState::Cancelled);

    let mut escrow = escrow_for(&t);
    let mut same = escrow_for(&t);
    let msg = ExecuteMsg::RescueFunds {
        token: "ustray".to_string(),
        amount: Uint256::from_u128(5),
        immutables: t.clone(),
    };
    assert_eq!(
        execute(&mut escrow, &at(T + 86400), &from("taker"), msg, None),
        rescue_funds(
            &mut same,
            &at(T + 86400),
            &from("taker"),
            "ustray".to_string(),
            Uint256::from_u128(5),
            &t
        )
    );
    assert_eq!(escrow.state, EscrowState::Rescued);
}

#[test]
fn execute_leaves_the_escrow_alone_on_failure() {
    let t = terms();
    let mut escrow = escrow_for(&t);
    let before = escrow.clone();
    let msg = ExecuteMsg::Cancel { immutables: t.clone() };
    assert_eq!(
        execute(&mut escrow, &at(T + 499), &from("taker"), msg, None),
        Err(ContractError::TimelockNotReached {})
    );
    assert_eq!(escrow, before);
}

#[test]
fn query_has_nothing_to_tell() {
    assert_eq!(query(QueryMsg::QueryFactoryAddress {}), Ok(b"\"no query\"".to_vec()));
    assert_eq!(query(QueryMsg::QueryEscrowDstCodeHash {}), Ok(b"\"no query\"".to_vec()));
    assert_eq!(
        query(QueryMsg::QueryFactoryAddress {}).unwrap(),
        cosmwasm_std::to_json_binary("no query").unwrap().to_vec()
    );
}

#[test]
fn a_second_cancel_is_refused() {
    let t = terms();
    let mut escrow = escrow_for(&t);
    assert!(cancel(&mut escrow, &at(T + 500), &from("taker"), &t).is_ok());
    assert_eq!(escrow.state, EscrowState::Cancelled);
    let before = escrow.clone();
    assert_eq!(
        cancel(&mut escrow, &at(T + 500), &from("taker"), &t),
        Err(ContractError::EscrowNotActive {})
    );
    assert_eq!(
        cancel(&mut escrow, &at(T + 90_000), &from("taker"), &t),
        Err(ContractError::EscrowNotActive {})
    );
    assert_eq!(escrow, before);
}

#[test]
fn cancel_after_withdraw_is_refused() {
    let t = terms();
    let f = fees(50, 30);
    let mut escrow = escrow_for(&t);
    assert!(withdraw(&mut escrow, &at(T + 100), &from("taker"), SECRET, &t, Some(&f)).is_ok());
    assert_eq!(escrow.state, EscrowState::Withdrawn);
    let before = escrow.clone();
    assert_eq!(
        cancel(&mut escrow, &at(T + 500), &from("taker"), &t),
        Err(ContractError::EscrowNotActive {})
    );
    assert_eq!(escrow, before);
    assert_eq!(escrow.state, EscrowState::Withdrawn);
}

#[test]
fn a_second_withdrawal_is_refused() {
    let t = terms();
    let f = fees(50, 30);
    let mut escrow = escrow_for(&t);
    assert!(withdraw(&mut escrow, &at(T + 100), &from("taker"), SECRET, &t, Some(&f)).is_ok());
    let before = escrow.clone();
    assert_eq!(
        withdraw(&mut escrow, &at(T + 100), &from("taker"), SECRET, &t, Some(&f)),
        Err(ContractError::EscrowNotActive {})
    );
    assert_eq!(
        public_withdraw(&mut escrow, &at(T + 200), &from("anyone"), SECRET, &t, Some(&f)),
        Err(ContractError::EscrowNotActive {})
    );
    assert_eq!(escrow, before);

    let mut escrow = escrow_for(&t);
    assert!(public_withdraw(&mut escrow, &at(T + 200), &from("anyone"), SECRET, &t, Some(&f)).is_ok());
    assert_eq!(
        withdraw(&mut escrow, &at(T + 200), &from("taker"), SECRET, &t, Some(&f)),
        Err(ContractError::EscrowNotActive {})
    );
    assert_eq!(escrow.state, EscrowState::Withdrawn);
}

#[test]
fn withdrawal_after_cancel_is_refused() {
    let t = terms();
    let f = fees(50, 30);
    let mut escrow = escrow_for(&t);
    assert!(cancel(&mut escrow, &at(T + 500), &from("taker"), &t).is_ok());
    assert_eq!(
        withdraw(&mut escrow, &at(T + 100), &from("taker"), SECRET, &t, Some(&f)),
        Err(ContractError::EscrowNotActive {})
    );
    assert_eq!(
        public_withdraw(&mut escrow, &at(T + 200), &from("anyone"), SECRET, &t, Some(&f)),
        Err(ContractError::EscrowNotActive {})
    );
    assert_eq!(escrow.state, EscrowState::Cancelled);
}

#[test]
fn a_finished_escrow_is_asked_for_its_terms_first_and_for_the_caller_last() {
    let t = terms();
    let mut forged = terms();
    forged.amount = Uint256::from_u128(1);
    let mut escrow = escrow_for(&t);
    assert!(cancel(&mut escrow, &at(T + 500), &from("taker"), &t).is_ok());
    assert_eq!(
        cancel(&mut escrow, &at(T + 500), &from("taker"), &forged),
        Err(ContractError::InvalidImmutables {})
    );
    assert_eq!(
        cancel(&mut escrow, &at(T), &from("maker"), &t),
        Err(ContractError::EscrowNotActive {})
    );
    assert_eq!(
        withdraw(&mut escrow, &at(T), &from("maker"), b"wrong", &t, None),
        Err(ContractError::EscrowNotActive {})
    );
    assert_eq!(escrow.state, EscrowState::Cancelled);
}

#[test]
fn rescue_ends_an_active_swap() {
    let t = terms();
    let f = fees(50, 30);
    let mut escrow = escrow_for(&t);
    assert!(rescue_funds(
        &mut escrow,
        &at(T + 86400),
        &from("taker"),
        "uatom".to_string(),
        Uint256::from_u128(1000),
        &t
    )
    .is_ok());
    assert_eq!(escrow.state, EscrowState::Rescued);
    assert_eq!(
        cancel(&mut escrow, &at(T + 86400), &from("taker"), &t),
        Err(ContractError::EscrowNotActive {})
    );
    assert_eq!(
        withdraw(&mut escrow, &at(T + 100), &from("taker"), SECRET, &t, Some(&f)),
        Err(ContractError::EscrowNotActive {})
    );
    assert_eq!(escrow.state, EscrowState::Rescued);
}

#[test]
fn rescue_is_open_in_every_state_and_leaves_a_final_state_alone() {
    let t = terms();
    let f = fees(50, 30);

    let mut escrow = escrow_for(&t);
    assert!(withdraw(&mut escrow, &at(T + 100), &from("taker"), SECRET, &t, Some(&f)).is_ok());
    let response = rescue_funds(
        &mut escrow,
        &at(T + 86400),
        &from("taker"),
        "ustray".to_string(),
        Uint256::from_u128(5),
        &t,
    )
    .unwrap();
    assert_eq!(response.messages, vec![send("taker", "ustray", 5)]);
    assert_eq!(escrow.state, EscrowState::Withdrawn);

    let mut escrow = escrow_for(&t);
    assert!(cancel(&mut escrow, &at(T + 500), &from("taker"), &t).is_ok());
    assert!(rescue_funds(
        &mut escrow,
        &at(T + 86400),
        &from("taker"),
        "ustray".to_string(),
        Uint256::from_u128(5),
        &t
    )
    .is_ok());
    assert_eq!(escrow.state, EscrowState::Cancelled);

    let mut escrow = escrow_for(&t);
    for _ in 0..2 {
        assert!(rescue_funds(
            &mut escrow,
            &at(T + 86400),
            &from("taker"),
            "ustray".to_string(),
            Uint256::from_u128(5),
            &t
        )
        .is_ok());
        assert_eq!(escrow.state, EscrowState::Rescued);
    }
}

#[test]
fn a_failed_rescue_leaves_every_state_alone() {
    let t = terms();
    let mut escrow = escrow_for(&t);
    assert!(cancel(&mut escrow, &at(T + 500), &from("taker"), &t).is_ok());
    let before = escrow.clone();
    assert_eq!(
        rescue_funds(
            &mut escrow,
            &at(T + 86399),
            &from("taker"),
            "ustray".to_string(),
            Uint256::from_u128(5),
            &t
        ),
        Err(ContractError::TimelockNotReached {})
    );
    assert_eq!(escrow, before);
}

#[test]
fn execute_pays_the_swap_once() {
    let t = terms();
    let f = fees(50, 30);
    let mut escrow = escrow_for(&t);
    let withdraw_msg = ExecuteMsg::Withdraw { secret: SECRET.to_vec(), immutables: t.clone() };
    let cancel_msg = ExecuteMsg::Cancel { immutables: t.clone() };
    let rescue_msg = ExecuteMsg::RescueFunds {
        token: "ustray".to_string(),
        amount: Uint256::from_u128(5),
        immutables: t.clone(),
    };
    let first = execute(&mut escrow, &at(T + 100), &from("taker"), withdraw_msg.clone(), Some(&f))
        .unwrap();
    assert_eq!(paid(&first), 1010);
    assert_eq!(
        execute(&mut escrow, &at(T + 100), &from("taker"), withdraw_msg, Some(&f)),
        Err(ContractError::EscrowNotActive {})
    );
    assert_eq!(
        execute(&mut escrow, &at(T + 500), &from("taker"), cancel_msg, None),
        Err(ContractError::EscrowNotActive {})
    );
    assert_eq!(escrow.state, EscrowState::Withdrawn);
    assert!(execute(&mut escrow, &at(T + 86400), &from("taker"), rescue_msg, None).is_ok());
    assert_eq!(escrow.state, EscrowState::Withdrawn);
}

#[test]
fn an_escrow_stored_as_finished_is_not_served() {
    let t = terms();
    for state in [EscrowState::Withdrawn, EscrowState::Cancelled, EscrowState::Rescued] {
        let mut escrow = escrow_for(&t);
        escrow.state = state;
        assert_eq!(
            cancel(&mut escrow, &at(T + 500), &from("taker"), &t),
            Err(ContractError::EscrowNotActive {})
        );
        assert_eq!(
            withdraw(&mut escrow, &at(T + 100), &from("taker"), SECRET, &t, Some(&fees(0, 0))),
            Err(ContractError::EscrowNotActive {})
        );
        assert_eq!(escrow.state, state);
    }
}
