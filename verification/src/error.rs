//! The errors of the contracts.

use vstd::prelude::*;

verus! {

/// A failure of the host's standard library, as far as these contracts
/// raise one.
#[derive(Clone, Debug, PartialEq, Eq)]
pub enum StdError {
    GenericErr { msg: String },
    SerializeErr { source_type: String, msg: String },
}

/// What a `StdError` holds, as plain values.
pub enum StdErrorView {
    GenericErr { msg: Seq<char> },
    SerializeErr { source_type: Seq<char>, msg: Seq<char> },
}

impl View for StdError {
    type V = StdErrorView;

    open spec fn view(&self) -> StdErrorView {
        match self {
            StdError::GenericErr { msg } => StdErrorView::GenericErr { msg: msg@ },
            StdError::SerializeErr { source_type, msg } => StdErrorView::SerializeErr {
                source_type: source_type@,
                msg: msg@,
            },
        }
    }
}

impl StdErrorView {
    /// The text that the error is shown as.
    pub open spec fn message(self) -> Seq<char> {
        match self {
            StdErrorView::GenericErr { msg } => "Generic error: "@ + msg,
            StdErrorView::SerializeErr { source_type, msg } => "Error serializing type "@
                + source_type + ": "@ + msg,
        }
    }
}

impl StdError {
    /// A generic error with the given message.
    pub fn generic_err(msg: &str) -> (e: StdError)
        ensures
            e@ == (StdErrorView::GenericErr { msg: msg@ }),
    {
        StdError::GenericErr { msg: String::from_str(msg) }
    }

    /// A failure to serialize a value of the type named `source_type`.
    pub fn serialize_err(source_type: &str, msg: &str) -> (e: StdError)
        ensures
            e@ == (StdErrorView::SerializeErr { source_type: source_type@, msg: msg@ }),
    {
        StdError::SerializeErr {
            source_type: String::from_str(source_type),
            msg: String::from_str(msg),
        }
    }

    /// The text that the error is shown as.
    pub fn to_string(&self) -> (s: String)
        ensures
            s@ == self@.message(),
    {
        match self {
            StdError::GenericErr { msg } => String::from_str("Generic error: ").concat(
                msg.as_str(),
            ),
            StdError::SerializeErr { source_type, msg } => String::from_str(
                "Error serializing type ",
            ).concat(source_type.as_str()).concat(": ").concat(msg.as_str()),
        }
    }
}

/// Why a call into the factory or into an escrow was refused.
///
/// `EscrowNotActive` is what a withdrawal or a cancellation gets from an
/// escrow that has been withdrawn from, cancelled or rescued already.
#[derive(Clone, Debug, PartialEq, Eq)]
pub enum ContractError {
    Std(StdError),
    InsufficientEscrowBalance {},
    InvalidCreationTime {},
    MissingRequiredToken { token: String },
    InsufficientTokenAmount { token: String, expected: String, actual: String },
    InvalidSafetyDepositToken { token: String },
    Unauthorized {},
    InvalidSecret {},
    InvalidTime {},
    InvalidImmutables {},
    EscrowNotActive {},
    TimelockNotReached {},
    TimelockHasCrossed {},
    UintConversionFailed {},
    ErrorFeeParsing {},
}

/// What a `ContractError` holds, as plain values.
pub enum ContractErrorView {
    Std(StdErrorView),
    InsufficientEscrowBalance,
    InvalidCreationTime,
    MissingRequiredToken { token: Seq<char> },
    InsufficientTokenAmount { token: Seq<char>, expected: Seq<char>, actual: Seq<char> },
    InvalidSafetyDepositToken { token: Seq<char> },
    Unauthorized,
    InvalidSecret,
    InvalidTime,
    InvalidImmutables,
    EscrowNotActive,
    TimelockNotReached,
    TimelockHasCrossed,
    UintConversionFailed,
    ErrorFeeParsing,
}

impl View for ContractError {
    type V = ContractErrorView;

    open spec fn view(&self) -> ContractErrorView {
        match self {
            ContractError::Std(e) => ContractErrorView::Std(e@),
            ContractError::InsufficientEscrowBalance {  } => ContractErrorView::InsufficientEscrowBalance,
            ContractError::InvalidCreationTime {  } => ContractErrorView::InvalidCreationTime,
            ContractError::MissingRequiredToken { token } => ContractErrorView::MissingRequiredToken {
                token: token@,
            },
            ContractError::InsufficientTokenAmount {
                token,
                expected,
                actual,
            } => ContractErrorView::InsufficientTokenAmount {
                token: token@,
                expected: expected@,
                actual: actual@,
            },
            ContractError::InvalidSafetyDepositToken {
                token,
            } => ContractErrorView::InvalidSafetyDepositToken { token: token@ },
            ContractError::Unauthorized {  } => ContractErrorView::Unauthorized,
            ContractError::InvalidSecret {  } => ContractErrorView::InvalidSecret,
            ContractError::InvalidTime {  } => ContractErrorView::InvalidTime,
            ContractError::InvalidImmutables {  } => ContractErrorView::InvalidImmutables,
            ContractError::EscrowNotActive {  } => ContractErrorView::EscrowNotActive,
            ContractError::TimelockNotReached {  } => ContractErrorView::TimelockNotReached,
            ContractError::TimelockHasCrossed {  } => ContractErrorView::TimelockHasCrossed,
            ContractError::UintConversionFailed {  } => ContractErrorView::UintConversionFailed,
            ContractError::ErrorFeeParsing {  } => ContractErrorView::ErrorFeeParsing,
        }
    }
}

impl ContractErrorView {
    /// The text that the error is shown as.
    pub open spec fn message(self) -> Seq<char> {
        match self {
            ContractErrorView::Std(e) => e.message(),
            ContractErrorView::InsufficientEscrowBalance => "Insufficient escrow balance"@,
            ContractErrorView::InvalidCreationTime => "Invalid creation time"@,
            ContractErrorView::MissingRequiredToken { token } => "Missing required token: "@
                + token,
            ContractErrorView::InsufficientTokenAmount {
                token,
                expected,
                actual,
            } => "Insufficient token amount for "@ + token + ": expected "@ + expected + ", got "@
                + actual,
            ContractErrorView::InvalidSafetyDepositToken {
                token,
            } => "Invalid safety deposit token: "@ + token,
            ContractErrorView::Unauthorized => "Unauthorized"@,
            ContractErrorView::InvalidSecret => "Invalid secret"@,
            ContractErrorView::InvalidTime => "Invalid time"@,
            ContractErrorView::InvalidImmutables => "Invalid immutables"@,
            ContractErrorView::EscrowNotActive => "Escrow is not active"@,
            ContractErrorView::TimelockNotReached => "Timelock has not reached"@,
            ContractErrorView::TimelockHasCrossed => "Timelock has crossed"@,
            ContractErrorView::UintConversionFailed => "Failed to convert uint256 into uint128"@,
            ContractErrorView::ErrorFeeParsing => "error fee parsing"@,
        }
    }
}

impl ContractError {
    /// The text that the error is shown as.
    pub fn to_string(&self) -> (s: String)
        ensures
            s@ == self@.message(),
    {
        match self {
            ContractError::Std(e) => e.to_string(),
            ContractError::InsufficientEscrowBalance {  } => String::from_str(
                "Insufficient escrow balance",
            ),
            ContractError::InvalidCreationTime {  } => String::from_str("Invalid creation time"),
            ContractError::MissingRequiredToken { token } => String::from_str(
                "Missing required token: ",
            ).concat(token.as_str()),
            ContractError::InsufficientTokenAmount { token, expected, actual } => String::from_str(
                "Insufficient token amount for ",
            ).concat(token.as_str()).concat(": expected ").concat(expected.as_str()).concat(
                ", got ",
            ).concat(actual.as_str()),
            ContractError::InvalidSafetyDepositToken { token } => String::from_str(
                "Invalid safety deposit token: ",
            ).concat(token.as_str()),
            ContractError::Unauthorized {  } => String::from_str("Unauthorized"),
            ContractError::InvalidSecret {  } => String::from_str("Invalid secret"),
            ContractError::InvalidTime {  } => String::from_str("Invalid time"),
            ContractError::InvalidImmutables {  } => String::from_str("Invalid immutables"),
            ContractError::EscrowNotActive {  } => String::from_str("Escrow is not active"),
            ContractError::TimelockNotReached {  } => String::from_str("Timelock has not reached"),
            ContractError::TimelockHasCrossed {  } => String::from_str("Timelock has crossed"),
            ContractError::UintConversionFailed {  } => String::from_str(
                "Failed to convert uint256 into uint128",
            ),
            ContractError::ErrorFeeParsing {  } => String::from_str("error fee parsing"),
        }
    }
}

} // verus!
