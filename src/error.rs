//! The errors that the vault's operations report.

use vstd::prelude::*;

verus! {

#[derive(Clone, Copy, Debug, PartialEq, Eq, Structural, PartialOrd, Ord)]
pub enum ContractError {
    Unauthorized,
    AlreadyInitialized,
    InitializeTooLowQuorum,
    InitializeTooHighQuorum,
    UnauthorizedNotAMember,
    TitleTooLong,
    DescriptionTooLong,
    ProposalClosed,
    QuorumNotReached,
    ProposalNotFound,
    ProposalExpired,
    InvalidExpirationDate,
    MembersListEmpty,
    ZeroAddressProvided,
}

impl ContractError {
    /// The numeric code under which the host platform reports the error.
    pub fn code(&self) -> (r: u32)
        ensures
            r == error_code(*self),
    {
        match self {
            ContractError::Unauthorized => 0,
            ContractError::AlreadyInitialized => 1,
            ContractError::InitializeTooLowQuorum => 2,
            ContractError::InitializeTooHighQuorum => 3,
            ContractError::UnauthorizedNotAMember => 4,
            ContractError::TitleTooLong => 5,
            ContractError::DescriptionTooLong => 6,
            ContractError::ProposalClosed => 7,
            ContractError::QuorumNotReached => 8,
            ContractError::ProposalNotFound => 9,
            ContractError::ProposalExpired => 10,
            ContractError::InvalidExpirationDate => 11,
            ContractError::MembersListEmpty => 12,
            ContractError::ZeroAddressProvided => 13,
        }
    }
}

/// The host-level code of each error, in declaration order from 0.
pub open spec fn error_code(e: ContractError) -> u32 {
    match e {
        ContractError::Unauthorized => 0,
        ContractError::AlreadyInitialized => 1,
        ContractError::InitializeTooLowQuorum => 2,
        ContractError::InitializeTooHighQuorum => 3,
        ContractError::UnauthorizedNotAMember => 4,
        ContractError::TitleTooLong => 5,
        ContractError::DescriptionTooLong => 6,
        ContractError::ProposalClosed => 7,
        ContractError::QuorumNotReached => 8,
        ContractError::ProposalNotFound => 9,
        ContractError::ProposalExpired => 10,
        ContractError::InvalidExpirationDate => 11,
        ContractError::MembersListEmpty => 12,
        ContractError::ZeroAddressProvided => 13,
    }
}

} // verus!
