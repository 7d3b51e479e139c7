use vstd::prelude::*;

verus! {

/// Spec-level image of a [`ContractError`]: the same variants, with every
/// string seen as its `Seq<char>` view.  Contracts speak of this type.
pub enum ErrorV {
    NotFound { id: u64 },
    Unauthorized { expected: Seq<char>, found: Seq<char> },
    InsufficientFunds,
    IncorrectFundsAmount { expected: Seq<char>, found: Seq<char> },
    InvalidAgreementStatus { expected: Seq<char>, found: Seq<char> },
    UnexpectedFunds { expected: Seq<char>, found: Seq<char> },
    InsufficientContractFunds { expected: Seq<char>, found: Seq<char> },
    InvalidCounterparty { initiator: Seq<char>, counterparty: Seq<char> },
}

/// A typed failure of one of the mutating operations or of a query.  Every
/// precondition violation maps to exactly one variant, so a caller can tell
/// every failure case apart; a failed call leaves the state untouched.
#[derive(Debug)]
pub enum ContractError {
    /// The referenced id has no record.
    NotFound { id: u64 },
    /// The caller identity does not match the required role.
    Unauthorized { expected: String, found: String },
    /// No attached funds entry matches the required asset at all.
    InsufficientFunds,
    /// The matching asset is present but the amount differs from required.
    IncorrectFundsAmount { expected: String, found: String },
    /// The current status is not among the statuses the operation permits.
    InvalidAgreementStatus { expected: String, found: String },
    /// An attached funds entry names an asset other than the required one.
    UnexpectedFunds { expected: String, found: String },
    /// The contract's held balance of a required asset is below the amount
    /// needed at execution time.
    InsufficientContractFunds { expected: String, found: String },
    /// Initiator and counterparty are the same identity (creation-time only).
    InvalidCounterparty { initiator: String, counterparty: String },
}

impl View for ContractError {
    type V = ErrorV;

    open spec fn view(&self) -> ErrorV {
        match self {
            ContractError::NotFound { id } => ErrorV::NotFound { id: *id },
            ContractError::Unauthorized { expected, found } => ErrorV::Unauthorized {
                expected: expected@,
                found: found@,
            },
            ContractError::InsufficientFunds => ErrorV::InsufficientFunds,
            ContractError::IncorrectFundsAmount { expected, found } => ErrorV::IncorrectFundsAmount {
                expected: expected@,
                found: found@,
            },
            ContractError::InvalidAgreementStatus { expected, found } => ErrorV::InvalidAgreementStatus {
                expected: expected@,
                found: found@,
            },
            ContractError::UnexpectedFunds { expected, found } => ErrorV::UnexpectedFunds {
                expected: expected@,
                found: found@,
            },
            ContractError::InsufficientContractFunds { expected, found } => ErrorV::InsufficientContractFunds {
                expected: expected@,
                found: found@,
            },
            ContractError::InvalidCounterparty { initiator, counterparty } => ErrorV::InvalidCounterparty {
                initiator: initiator@,
                counterparty: counterparty@,
            },
        }
    }
}

/// The spec-level image of an operation result: `Ok` and `Err` carried over
/// to the views of their payloads.
pub open spec fn res_view<T: View>(r: Result<T, ContractError>) -> Result<T::V, ErrorV> {
    match r {
        Ok(t) => Ok(t@),
        Err(e) => Err(e@),
    }
}

} // verus!
