//! The error taxonomy of the vault.
//!
//! Every operation fails synchronously with one of these values and leaves
//! the store unchanged; no error is fatal and nothing is retried here.

use vstd::prelude::*;

verus! {

/// Why an operation on the vault was refused.
#[derive(Debug, PartialEq, Eq, Structural, Clone, Copy)]
pub enum ContractError {
    /// The caller lacks the required privilege.
    Unauthorized,
    /// `open` was called while the vault is already open.
    IsOpen,
    /// `deposit`/`redeem` was attempted while the vault is not open.
    NotOpen,
    /// The operation requires an unpaused vault, or `pause` was called
    /// while the vault is already paused.
    Paused,
    /// `unpause` was called while the vault is not paused.
    NotPaused,
    /// `claim`/`reject` found no pending ownership proposal.
    ProposalNotFound,
    /// The pending ownership proposal's expiry lies in the past.
    Expired,
    /// A proposal duration exceeded the policy maximum (carried here).
    InvalidDuration(u64),
    /// The payment was not exactly one positive coin of the required denom.
    InvalidFunds,
    /// Provisioning has not yet committed a strategy denom.
    DenomNotInitialized,
    /// A completion notification carried an unexpected correlation id.
    InvalidReplyId,
    /// The external resource-creation facility reported failure.
    ProvisioningFailed,
}

impl ContractError {
    /// A human-readable description, for hosts that surface errors as text.
    pub fn message(&self) -> (r: &'static str)
        ensures
            r@ == self.spec_message(),
    {
        match self {
            ContractError::Unauthorized => "Unauthorized",
            ContractError::IsOpen => "Contract is already open",
            ContractError::NotOpen => "Cannot perform action as contract is not open",
            ContractError::Paused => "Cannot perform action as contract is paused",
            ContractError::NotPaused => "Contract is not paused",
            ContractError::ProposalNotFound => "Proposal not found",
            ContractError::Expired => "Expired",
            ContractError::InvalidDuration(_) => "Invalid duration",
            ContractError::InvalidFunds => "Invalid funds",
            ContractError::DenomNotInitialized => "Strategy denom not initialised",
            ContractError::InvalidReplyId => "Invalid reply id",
            ContractError::ProvisioningFailed => "Strategy denom creation failed",
        }
    }

    /// The text that [`ContractError::message`] returns for each variant.
    pub open spec fn spec_message(&self) -> Seq<char> {
        match self {
            ContractError::Unauthorized => "Unauthorized"@,
            ContractError::IsOpen => "Contract is already open"@,
            ContractError::NotOpen => "Cannot perform action as contract is not open"@,
            ContractError::Paused => "Cannot perform action as contract is paused"@,
            ContractError::NotPaused => "Contract is not paused"@,
            ContractError::ProposalNotFound => "Proposal not found"@,
            ContractError::Expired => "Expired"@,
            ContractError::InvalidDuration(_) => "Invalid duration"@,
            ContractError::InvalidFunds => "Invalid funds"@,
            ContractError::DenomNotInitialized => "Strategy denom not initialised"@,
            ContractError::InvalidReplyId => "Invalid reply id"@,
            ContractError::ProvisioningFailed => "Strategy denom creation failed"@,
        }
    }
}

} // verus!
