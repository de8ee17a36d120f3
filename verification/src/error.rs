//! The reasons for which a call is rejected.

use vstd::prelude::*;

verus! {

/// Why a call was rejected. A rejected call never changes the state.
#[derive(Clone, Copy, Debug, PartialEq, Eq, Structural)]
pub enum DaoError {
    /// The transfer message did not decode to transfer arguments.
    InvalidTransferArgs,
    /// The account offered as the token contract is not the configured one.
    InvalidTokenAccount,
    /// A donation to a proposal named no proposal.
    ProposalIdNotProvided,
    /// No proposal is stored under the given id.
    NoProposal,
    /// The proposal does not take donations.
    ProposalNotDonationKind,
    /// A bounty was to be created without its description.
    BountyInputNotFound,
    /// Migration was asked for by an account other than the contract itself.
    NotAllowed,
    /// No state was stored to migrate from.
    ContractNotInitialized,
    /// A balance or an id would no longer fit its integer type.
    Overflow,
}

impl DaoError {
    /// The fixed reason text of each rejection.
    pub open spec fn reason(self) -> Seq<char> {
        match self {
            DaoError::InvalidTransferArgs => "Not valid DelegateArgs"@,
            DaoError::InvalidTokenAccount => "ERR_INVALID_TOKEN_ACCOUNT"@,
            DaoError::ProposalIdNotProvided => "PROPOSAL_ID_NOT_PROVIDED"@,
            DaoError::NoProposal => "ERR_NO_PROPOSAL"@,
            DaoError::ProposalNotDonationKind => "PROPOSAL_IS_NOT_DONATION_KIND"@,
            DaoError::BountyInputNotFound => "BOUNTY_INPUT_NOT_FOUND"@,
            DaoError::NotAllowed => "ERR_NOT_ALLOWED"@,
            DaoError::ContractNotInitialized => "ERR_CONTRACT_IS_NOT_INITIALIZED"@,
            DaoError::Overflow => "attempt to add with overflow"@,
        }
    }

    /// The reason text, for the caller that has to abort with it.
    pub fn message(&self) -> (text: &'static str)
        ensures
            text@ == self.reason(),
    {
        match self {
            DaoError::InvalidTransferArgs => "Not valid DelegateArgs",
            DaoError::InvalidTokenAccount => "ERR_INVALID_TOKEN_ACCOUNT",
            DaoError::ProposalIdNotProvided => "PROPOSAL_ID_NOT_PROVIDED",
            DaoError::NoProposal => "ERR_NO_PROPOSAL",
            DaoError::ProposalNotDonationKind => "PROPOSAL_IS_NOT_DONATION_KIND",
            DaoError::BountyInputNotFound => "BOUNTY_INPUT_NOT_FOUND",
            DaoError::NotAllowed => "ERR_NOT_ALLOWED",
            DaoError::ContractNotInitialized => "ERR_CONTRACT_IS_NOT_INITIALIZED",
            DaoError::Overflow => "attempt to add with overflow",
        }
    }
}

} // verus!
