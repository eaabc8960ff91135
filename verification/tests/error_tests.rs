use htlc_escrow::error::{ContractError, StdError};

#[test]
fn std_error_messages() {
    assert_eq!(StdError::generic_err("boom").to_string(), "Generic error: boom");
    assert_eq!(
        StdError::serialize_err("Immutables", "Failed to serialize").to_string(),
        "Error serializing type Immutables: Failed to serialize"
    );
    assert_eq!(
        StdError::generic_err("boom").to_string(),
        cosmwasm_std::StdError::generic_err("boom").to_string()
    );
    assert_eq!(
        StdError::serialize_err("Immutables", "Failed to serialize").to_string(),
        cosmwasm_std::StdError::serialize_err("Immutables", "Failed to serialize").to_string()
    );
}

#[test]
fn std_error_constructors() {
    assert_eq!(StdError::generic_err("boom"), StdError::GenericErr { msg: "boom".to_string() });
    assert_eq!(
        StdError::serialize_err("T", "m"),
        StdError::SerializeErr { source_type: "T".to_string(), msg: "m".to_string() }
    );
}

#[test]
fn contract_error_messages() {
    assert_eq!(
        ContractError::Std(StdError::generic_err("inner")).to_string(),
        "Generic error: inner"
    );
    assert_eq!(
        ContractError::InsufficientEscrowBalance {}.to_string(),
        "Insufficient escrow balance"
    );
    assert_eq!(ContractError::InvalidCreationTime {}.to_string(), "Invalid creation time");
    assert_eq!(
        ContractError::MissingRequiredToken { token: "uatom".to_string() }.to_string(),
        "Missing required token: uatom"
    );
    assert_eq!(
        ContractError::InsufficientTokenAmount {
            token: "uatom".to_string(),
            expected: "1010".to_string(),
            actual: "1009".to_string(),
        }
        .to_string(),
        "Insufficient token amount for uatom: expected 1010, got 1009"
    );
    assert_eq!(
        ContractError::InvalidSafetyDepositToken { token: "uosmo".to_string() }.to_string(),
        "Invalid safety deposit token: uosmo"
    );
    assert_eq!(ContractError::Unauthorized {}.to_string(), "Unauthorized");
    assert_eq!(ContractError::InvalidSecret {}.to_string(), "Invalid secret");
    assert_eq!(ContractError::InvalidTime {}.to_string(), "Invalid time");
    assert_eq!(ContractError::InvalidImmutables {}.to_string(), "Invalid immutables");
    assert_eq!(ContractError::TimelockNotReached {}.to_string(), "Timelock has not reached");
    assert_eq!(ContractError::TimelockHasCrossed {}.to_string(), "Timelock has crossed");
    assert_eq!(
        ContractError::UintConversionFailed {}.to_string(),
        "Failed to convert uint256 into uint128"
    );
    assert_eq!(ContractError::ErrorFeeParsing {}.to_string(), "error fee parsing");
}

#[test]
fn escrow_not_active_message() {
    assert_eq!(ContractError::EscrowNotActive {}.to_string(), "Escrow is not active");
}
