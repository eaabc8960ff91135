//! Hashing, the secret check, time comparisons and the funding rule.

use vstd::prelude::*;
use sha2::Digest;
use crate::chain::{coins_view, Coin, CoinView, MessageInfo};
use crate::error::{ContractError, ContractErrorView, StdError, StdErrorView};
use crate::text::{
    decimal, hex_decode, hex_lower, hex_upper, lemma_hex_lower_round_trip,
    lemma_hex_upper_injective, to_hex_lower, to_hex_upper,
};
use crate::types::{commitment_bytes, Immutables, ImmutablesView};
use crate::uint256::Uint256;

verus! {

/// The Keccak-256 digest of `data`.
pub uninterp spec fn keccak256_digest(data: Seq<u8>) -> Seq<u8>;

/// The SHA-256 digest of `data`.
pub uninterp spec fn sha256_digest(data: Seq<u8>) -> Seq<u8>;

/// `sha3::Keccak256::digest`: the Keccak-256 digest of `data`, which is 32
/// bytes long.
#[verifier::external_body]
pub(crate) fn keccak256_bytes(data: &[u8]) -> (digest: Vec<u8>)
    ensures
        digest@ == keccak256_digest(data@),
        digest@.len() == 32,
{
    sha3::Keccak256::digest(data).to_vec()
}

/// `sha2::Sha256::digest`: the SHA-256 digest of `data`, which is 32 bytes
/// long.
#[verifier::external_body]
pub(crate) fn sha256_bytes(data: &[u8]) -> (digest: Vec<u8>)
    ensures
        digest@ == sha256_digest(data@),
        digest@.len() == 32,
{
    sha2::Sha256::digest(data).to_vec()
}

/// The Keccak-256 digest of `data` in lower-case hexadecimal.
pub fn keccak256(data: &[u8]) -> (text: String)
    ensures
        text@ == hex_lower(keccak256_digest(data@)),
        keccak256_digest(data@).len() == 32,
{
    let digest = keccak256_bytes(data);
    to_hex_lower(digest.as_slice())
}

/// The SHA-256 digest of `data` in lower-case hexadecimal.
pub fn sha256(data: &[u8]) -> (text: String)
    ensures
        text@ == hex_lower(sha256_digest(data@)),
        sha256_digest(data@).len() == 32,
{
    let digest = sha256_bytes(data);
    to_hex_lower(digest.as_slice())
}

/// Whether `secret` hashes to `hashlock`: whether the lower-case
/// hexadecimal text of its Keccak-256 digest is `hashlock`, character for
/// character.
pub fn validate_secret(secret: &[u8], hashlock: &str) -> (valid: bool)
    ensures
        valid == (hex_lower(keccak256_digest(secret@)) == hashlock@),
{
    let secret_hash = keccak256(secret);
    let lock = String::from_str(hashlock);
    secret_hash == lock
}

/// Whether `current_time` is at or after `timelock`.
pub fn is_after_timelock(current_time: u64, timelock: u64) -> (after: bool)
    ensures
        after == (current_time >= timelock),
{
    current_time >= timelock
}

/// Whether `current_time` is before `timelock`.
pub fn is_before_timelock(current_time: u64, timelock: u64) -> (before: bool)
    ensures
        before == (current_time < timelock),
{
    current_time < timelock
}

/// A result without a value as plain values: the error by its view.
pub open spec fn unit_result_view(r: Result<(), ContractError>) -> Result<(), ContractErrorView> {
    match r {
        Ok(_) => Ok(()),
        Err(e) => Err(e@),
    }
}

/// A result that holds a text as plain values: the text and the error by
/// their views.
pub open spec fn text_result_view(r: Result<String, ContractError>) -> Result<
    Seq<char>,
    ContractErrorView,
> {
    match r {
        Ok(text) => Ok(text@),
        Err(e) => Err(e@),
    }
}

/// A result without a value as plain values: the error by its view.
pub open spec fn std_result_view(r: Result<(), StdError>) -> Result<(), StdErrorView> {
    match r {
        Ok(_) => Ok(()),
        Err(e) => Err(e@),
    }
}

/// Passes where `caller` is `authorized`, character for character.
pub fn validate_caller(caller: &str, authorized: &str) -> (r: Result<(), StdError>)
    ensures
        std_result_view(r) == if caller@ == authorized@ {
            Ok::<(), StdErrorView>(())
        } else {
            Err(StdErrorView::GenericErr { msg: "Unauthorized caller"@ })
        },
{
    let caller = String::from_str(caller);
    let authorized = String::from_str(authorized);
    if caller != authorized {
        return Err(StdError::generic_err("Unauthorized caller"));
    }
    Ok(())
}

/// Passes where `available` is at least `required`.
pub fn validate_sufficient_balance(available: Uint256, required: Uint256) -> (r: Result<
    (),
    StdError,
>)
    ensures
        std_result_view(r) == if available@ >= required@ {
            Ok::<(), StdErrorView>(())
        } else {
            Err(StdErrorView::GenericErr { msg: "Insufficient balance"@ })
        },
{
    if available.lt(&required) {
        return Err(StdError::generic_err("Insufficient balance"));
    }
    Ok(())
}

/// The amount of `denom` among `funds`: that of the last coin of that
/// asset, and zero where there is none.
pub open spec fn deposited(funds: Seq<CoinView>, denom: Seq<char>) -> nat
    decreases funds.len(),
{
    if funds.len() == 0 {
        0
    } else if funds.last().denom == denom {
        funds.last().amount
    } else {
        deposited(funds.drop_last(), denom)
    }
}

/// The error for a deposit of `actual` where `expected` of `token` is due.
pub open spec fn shortfall(token: Seq<char>, expected: nat, actual: nat) -> ContractErrorView {
    ContractErrorView::InsufficientTokenAmount {
        token,
        expected: decimal(expected),
        actual: decimal(actual),
    }
}

/// The funding rule. Where the safety deposit is paid in the swap's own
/// asset, one deposit covers both amounts. Where it is not, each asset's
/// deposit covers its own amount, and the safety deposit is looked at
/// first.
pub open spec fn funding(
    terms: ImmutablesView,
    funds: Seq<CoinView>,
    safety_deposit_token: Seq<char>,
) -> Result<(), ContractErrorView> {
    if safety_deposit_token == terms.token {
        let expected = terms.safety_deposit + terms.amount;
        let actual = deposited(funds, terms.token);
        if actual < expected {
            Err(shortfall(terms.token, expected, actual))
        } else {
            Ok(())
        }
    } else {
        let deposit = deposited(funds, safety_deposit_token);
        let main = deposited(funds, terms.token);
        if deposit < terms.safety_deposit {
            Err(shortfall(safety_deposit_token, terms.safety_deposit, deposit))
        } else if main < terms.amount {
            Err(shortfall(terms.token, terms.amount, main))
        } else {
            Ok(())
        }
    }
}

/// The funding rule, case by case. Where the safety deposit is paid in
/// the swap's asset, funding passes exactly where the deposit of that
/// asset is at least the amount and the safety deposit together. Where
/// it is paid in another asset, funding passes exactly where each asset's
/// deposit is at least what is due in it. A shortfall is reported for one
/// asset, with what was due in it and what was deposited.
pub proof fn lemma_funding_rule(
    terms: ImmutablesView,
    funds: Seq<CoinView>,
    safety_deposit_token: Seq<char>,
)
    ensures
        safety_deposit_token == terms.token ==> (funding(terms, funds, safety_deposit_token) is Ok
            <==> deposited(funds, terms.token) >= terms.amount + terms.safety_deposit),
        safety_deposit_token == terms.token && deposited(funds, terms.token) < terms.amount
            + terms.safety_deposit ==> funding(terms, funds, safety_deposit_token) == Err::<
            (),
            ContractErrorView,
        >(
            shortfall(
                terms.token,
                terms.amount + terms.safety_deposit,
                deposited(funds, terms.token),
            ),
        ),
        safety_deposit_token != terms.token ==> (funding(terms, funds, safety_deposit_token) is Ok
            <==> deposited(funds, safety_deposit_token) >= terms.safety_deposit && deposited(
            funds,
            terms.token,
        ) >= terms.amount),
        safety_deposit_token != terms.token && deposited(funds, safety_deposit_token)
            < terms.safety_deposit ==> funding(terms, funds, safety_deposit_token) == Err::<
            (),
            ContractErrorView,
        >(
            shortfall(
                safety_deposit_token,
                terms.safety_deposit,
                deposited(funds, safety_deposit_token),
            ),
        ),
        safety_deposit_token != terms.token && deposited(funds, safety_deposit_token)
            >= terms.safety_deposit && deposited(funds, terms.token) < terms.amount ==> funding(
            terms,
            funds,
            safety_deposit_token,
        ) == Err::<(), ContractErrorView>(
            shortfall(terms.token, terms.amount, deposited(funds, terms.token)),
        ),
{
}

/// An asset of which no coin is among the funds counts as a deposit of
/// zero.
pub proof fn lemma_absent_asset_is_zero(funds: Seq<CoinView>, denom: Seq<char>)
    requires
        forall|i: int| 0 <= i < funds.len() ==> funds[i].denom != denom,
    ensures
        deposited(funds, denom) == 0,
    decreases funds.len(),
{
    if funds.len() > 0 {
        lemma_absent_asset_is_zero(funds.drop_last(), denom);
    }
}

/// The amount of `denom` among `funds`.
pub fn deposited_amount(funds: &Vec<Coin>, denom: &str) -> (amount: u128)
    ensures
        amount == deposited(coins_view(funds@), denom@),
{
    let wanted = String::from_str(denom);
    let mut amount: u128 = 0;
    let mut i: usize = 0;
    assert(coins_view(funds@.subrange(0, 0)) =~= Seq::<CoinView>::empty());
    while i < funds.len()
        invariant
            i <= funds.len(),
            wanted@ == denom@,
            amount == deposited(coins_view(funds@.subrange(0, i as int)), denom@),
        decreases funds.len() - i,
    {
        proof {
            let before = coins_view(funds@.subrange(0, i as int));
            let after = coins_view(funds@.subrange(0, i + 1));
            assert(after =~= before.push(funds@[i as int]@));
            assert(after.drop_last() =~= before);
        }
        if funds[i].denom == wanted {
            amount = funds[i].amount;
        }
        i += 1;
    }
    assert(funds@.subrange(0, funds@.len() as int) =~= funds@);
    amount
}

/// Checks that the funds that came with a call cover the swap's amount and
/// its safety deposit, by the funding rule. An asset that is not among
/// the funds counts as a deposit of zero.
pub fn validate_token_amounts(
    immutables: &Immutables,
    info: &MessageInfo,
    safety_deposit_token: &str,
) -> (r: Result<(), ContractError>)
    ensures
        unit_result_view(r) == funding(immutables@, info@.funds, safety_deposit_token@),
{
    let deposit_token = String::from_str(safety_deposit_token);
    let is_same_token = deposit_token == immutables.token;

    if is_same_token {
        let (total_expected, wrapped) = immutables.safety_deposit.overflowing_add(
            immutables.amount,
        );
        let actual_amount = Uint256::from_u128(
            deposited_amount(&info.funds, immutables.token.as_str()),
        );

        if wrapped || actual_amount.lt(&total_expected) {
            return Err(
                ContractError::InsufficientTokenAmount {
                    token: immutables.token.clone(),
                    expected: immutables.safety_deposit.sum_to_string(immutables.amount),
                    actual: actual_amount.to_string(),
                },
            );
        }
    } else {
        let actual_safety_deposit_amount = Uint256::from_u128(
            deposited_amount(&info.funds, safety_deposit_token),
        );

        if actual_safety_deposit_amount.lt(&immutables.safety_deposit) {
            return Err(
                ContractError::InsufficientTokenAmount {
                    token: deposit_token,
                    expected: immutables.safety_deposit.to_string(),
                    actual: actual_safety_deposit_amount.to_string(),
                },
            );
        }
        let actual_main_amount = Uint256::from_u128(
            deposited_amount(&info.funds, immutables.token.as_str()),
        );

        if actual_main_amount.lt(&immutables.amount) {
            return Err(
                ContractError::InsufficientTokenAmount {
                    token: immutables.token.clone(),
                    expected: immutables.amount.to_string(),
                    actual: actual_main_amount.to_string(),
                },
            );
        }
    }

    Ok(())
}

/// Why no address can be derived.
#[derive(Clone, Copy, Debug, PartialEq, Eq, Structural)]
pub enum Instantiate2AddressError {
    InvalidChecksumLength,
    InvalidSaltLength,
}

/// The address of a contract that `creator` deploys from the code with
/// the given checksum under `salt`, where checksum and salt have a length
/// that is accepted.
pub uninterp spec fn instantiate2_address_bytes(
    checksum: Seq<u8>,
    creator: Seq<u8>,
    salt: Seq<u8>,
) -> Seq<u8>;

/// `cosmwasm_std::instantiate2_address`: refuses a checksum that is not 32
/// bytes long, then a salt that is empty or longer than 64 bytes, and
/// else gives the address, which is 32 bytes long.
#[verifier::external_body]
pub(crate) fn instantiate2_address(checksum: &[u8], creator: &[u8], salt: &[u8]) -> (r: Result<
    Vec<u8>,
    Instantiate2AddressError,
>)
    ensures
        match r {
            Ok(address) => {
                &&& checksum@.len() == 32
                &&& 1 <= salt@.len() <= 64
                &&& address@ == instantiate2_address_bytes(checksum@, creator@, salt@)
                &&& address@.len() == 32
            },
            Err(Instantiate2AddressError::InvalidChecksumLength) => checksum@.len() != 32,
            Err(Instantiate2AddressError::InvalidSaltLength) => {
                &&& checksum@.len() == 32
                &&& (salt@.len() == 0 || salt@.len() > 64)
            },
        },
{
    let creator = cosmwasm_std::CanonicalAddr::from(creator);
    match cosmwasm_std::instantiate2_address(checksum, &creator, salt) {
        Ok(address) => Ok(address.into()),
        Err(cosmwasm_std::Instantiate2AddressError::InvalidChecksumLength) => Err(
            Instantiate2AddressError::InvalidChecksumLength,
        ),
        Err(cosmwasm_std::Instantiate2AddressError::InvalidSaltLength) => Err(
            Instantiate2AddressError::InvalidSaltLength,
        ),
    }
}

/// The error for an address that cannot be derived because the code's
/// checksum is not 32 bytes long.
pub open spec fn invalid_checksum() -> ContractErrorView {
    ContractErrorView::Std(
        StdErrorView::GenericErr { msg: "Failed to compute address: invalid checksum length"@ },
    )
}

/// The address of the escrow for `terms`, in upper-case hexadecimal: the
/// one that `creator` deploys from the code with the given checksum under
/// the commitment to the terms as salt.
pub open spec fn escrow_address(terms: ImmutablesView, checksum: Seq<u8>, creator: Seq<u8>) -> Result<
    Seq<char>,
    ContractErrorView,
> {
    if checksum.len() != 32 {
        Err(invalid_checksum())
    } else {
        Ok(hex_upper(instantiate2_address_bytes(checksum, creator, commitment_bytes(terms))))
    }
}

/// The address of an escrow is a function of the terms, the checksum of
/// the escrow's code and the address of the factory: the same three give
/// the same address, at any time and in any order of deployment.
pub proof fn lemma_address_is_determined(
    terms: ImmutablesView,
    checksum: Seq<u8>,
    creator: Seq<u8>,
    other_terms: ImmutablesView,
    other_checksum: Seq<u8>,
    other_creator: Seq<u8>,
)
    requires
        commitment_bytes(terms) == commitment_bytes(other_terms),
        checksum == other_checksum,
        creator == other_creator,
    ensures
        escrow_address(terms, checksum, creator) == escrow_address(
            other_terms,
            other_checksum,
            other_creator,
        ),
{
}

/// Whether two different triples of code checksum, creator and salt give
/// the same address.
pub open spec fn instantiate2_collides() -> bool {
    exists|
        checksum: Seq<u8>,
        creator: Seq<u8>,
        salt: Seq<u8>,
        other_checksum: Seq<u8>,
        other_creator: Seq<u8>,
        other_salt: Seq<u8>,
    |
        #![trigger
            instantiate2_address_bytes(checksum, creator, salt),
            instantiate2_address_bytes(other_checksum, other_creator, other_salt)
        ]
        (checksum != other_checksum || creator != other_creator || salt != other_salt)
            && instantiate2_address_bytes(checksum, creator, salt) == instantiate2_address_bytes(
            other_checksum,
            other_creator,
            other_salt,
        )
}

/// The address tells escrows apart. Two addresses that are the same come
/// of the same code checksum, the same creator and the same commitment
/// to the terms, unless the derivation of addresses collides. So to
/// change the code, the factory or the commitment is to change the
/// address, or to have found such a collision.
pub proof fn lemma_address_binds(
    terms: ImmutablesView,
    checksum: Seq<u8>,
    creator: Seq<u8>,
    other_terms: ImmutablesView,
    other_checksum: Seq<u8>,
    other_creator: Seq<u8>,
)
    requires
        escrow_address(terms, checksum, creator) is Ok,
        escrow_address(terms, checksum, creator) == escrow_address(
            other_terms,
            other_checksum,
            other_creator,
        ),
    ensures
        instantiate2_collides() || (checksum == other_checksum && creator == other_creator
            && commitment_bytes(terms) == commitment_bytes(other_terms)),
{
    let address = instantiate2_address_bytes(checksum, creator, commitment_bytes(terms));
    let other_address = instantiate2_address_bytes(
        other_checksum,
        other_creator,
        commitment_bytes(other_terms),
    );
    lemma_hex_upper_injective(address, other_address);
    assert(address == other_address);
}

/// The address at which the factory at `factory_contract_address` deploys
/// the escrow for the given terms from the code with the checksum
/// `escrow_dst_code_hash`. It depends on nothing else, and fails only on
/// a checksum that is not 32 bytes long.
pub fn compute_escrow_address(
    immutables: &Immutables,
    escrow_dst_code_hash: &[u8],
    factory_contract_address: &[u8],
) -> (r: Result<String, ContractError>)
    ensures
        text_result_view(r) == escrow_address(
            immutables@,
            escrow_dst_code_hash@,
            factory_contract_address@,
        ),
{
    let salt = match immutables.compute_immutables_hash() {
        Ok(salt) => salt,
        Err(e) => {
            return Err(ContractError::Std(e));
        },
    };
    proof {
        lemma_hex_lower_round_trip(commitment_bytes(immutables@));
    }
    let salt_bytes = match hex_decode(salt.as_str()) {
        Ok(bytes) => bytes,
        Err(_) => {
            return Err(ContractError::Std(StdError::generic_err("Invalid salt format")));
        },
    };
    let escrow_address = match instantiate2_address(
        escrow_dst_code_hash,
        factory_contract_address,
        salt_bytes.as_slice(),
    ) {
        Ok(address) => address,
        Err(Instantiate2AddressError::InvalidChecksumLength) => {
            return Err(
                ContractError::Std(
                    StdError::generic_err("Failed to compute address: invalid checksum length"),
                ),
            );
        },
        Err(Instantiate2AddressError::InvalidSaltLength) => {
            return Err(
                ContractError::Std(
                    StdError::generic_err("Failed to compute address: invalid salt length"),
                ),
            );
        },
    };
    Ok(to_hex_upper(escrow_address.as_slice()))
}

} // verus!
