//! The plain data that the operations take.

use crate::bounty::{BountyInput, BountyInputView};
use vstd::prelude::*;

verus! {

/// What the organisation says of itself.
#[derive(Clone, Debug, PartialEq, Eq)]
pub struct DaoMetadata {
    pub name: String,
    pub purpose: String,
}

/// The metadata as a value.
pub struct DaoMetadataView {
    pub name: Seq<char>,
    pub purpose: Seq<char>,
}

impl View for DaoMetadata {
    type V = DaoMetadataView;

    open spec fn view(&self) -> DaoMetadataView {
        DaoMetadataView { name: self.name@, purpose: self.purpose@ }
    }
}

/// The four stores of the state, as they are told apart in persistent
/// storage.
#[derive(Clone, Copy, Debug, PartialEq, Eq, Structural)]
pub enum StorageKeys {
    Delegations,
    Proposals,
    Donations,
    Bounties,
}

impl StorageKeys {
    /// The byte that stands for each store: its place in the enumeration.
    pub open spec fn spec_prefix(self) -> u8 {
        match self {
            StorageKeys::Delegations => 0,
            StorageKeys::Proposals => 1,
            StorageKeys::Donations => 2,
            StorageKeys::Bounties => 3,
        }
    }

    /// The byte under which the store's records are kept.
    pub fn prefix(&self) -> (byte: u8)
        ensures
            byte == self.spec_prefix(),
    {
        match self {
            StorageKeys::Delegations => 0,
            StorageKeys::Proposals => 1,
            StorageKeys::Donations => 2,
            StorageKeys::Bounties => 3,
        }
    }

    /// Two stores never share a prefix.
    pub proof fn lemma_prefix_injective(a: StorageKeys, b: StorageKeys)
        requires
            a.spec_prefix() == b.spec_prefix(),
        ensures
            a == b,
    {
    }
}

/// What a transfer is for.
#[derive(Clone, Copy, Debug, PartialEq, Eq, Structural)]
pub enum TransferPurpose {
    Delegate,
    OpenDonate,
    ProposalDonate,
    CreateBounty,
}

/// The command that the message of a transfer carries.
#[derive(Clone, Debug, PartialEq, Eq)]
pub struct TransferArgs {
    /// The account that a delegation goes to.
    pub delegate: String,
    /// The proposal that a donation goes to.
    pub proposal: Option<u64>,
    pub transfer_type: TransferPurpose,
    /// The bounty to create.
    pub bounty_input: Option<BountyInput>,
}

/// Transfer arguments as a value.
pub struct TransferArgsView {
    pub delegate: Seq<char>,
    pub proposal: Option<u64>,
    pub transfer_type: TransferPurpose,
    pub bounty_input: Option<BountyInputView>,
}

impl View for TransferArgs {
    type V = TransferArgsView;

    open spec fn view(&self) -> TransferArgsView {
        TransferArgsView {
            delegate: self.delegate@,
            proposal: self.proposal,
            transfer_type: self.transfer_type,
            bounty_input: match self.bounty_input {
                Some(input) => Some(input@),
                None => None,
            },
        }
    }
}

} // verus!
