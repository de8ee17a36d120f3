//! The state as a mathematical value, and each operation as a function from
//! the state before to the state after or to the reason for rejecting.

use crate::bounty::{BountyInputView, BountyView};
use crate::error::DaoError;
use crate::ledger::{balance_in, credited};
use crate::proposals::{ProposalKind, ProposalView};
use crate::types::{DaoMetadataView, TransferArgsView, TransferPurpose};
use vstd::prelude::*;

verus! {

/// The whole state as a value.
pub struct ContractView {
    pub dao_metadata: DaoMetadataView,
    pub locked_amount: nat,
    pub token_account_id: Seq<char>,
    pub total_delegation_amount: nat,
    pub delegations: Map<Seq<char>, nat>,
    pub last_proposal_id: u64,
    pub proposals: Map<u64, ProposalView>,
    pub donations: Map<Seq<char>, nat>,
    pub owner_id: Seq<char>,
    pub last_bounty_id: u64,
    pub bounties: Map<u64, BountyView>,
}

impl ContractView {
    /// The state right after initialization: nothing stored, all counters
    /// zero.
    pub open spec fn initial(
        dao_metadata: DaoMetadataView,
        token_account_id: Seq<char>,
        owner_id: Seq<char>,
    ) -> ContractView {
        ContractView {
            dao_metadata,
            locked_amount: 0,
            token_account_id,
            total_delegation_amount: 0,
            delegations: Map::empty(),
            last_proposal_id: 0,
            proposals: Map::empty(),
            donations: Map::empty(),
            owner_id,
            last_bounty_id: 0,
            bounties: Map::empty(),
        }
    }

    /// Whether `candidate` is the configured token contract.
    pub open spec fn accepts_token(self, candidate: Seq<char>) -> bool {
        candidate == self.token_account_id
    }

    /// `amount` more is delegated to `delegate`.
    pub open spec fn delegate(self, delegate: Seq<char>, amount: nat) -> Result<
        ContractView,
        DaoError,
    > {
        if self.total_delegation_amount + amount > u128::MAX {
            Err(DaoError::Overflow)
        } else {
            Ok(
                ContractView {
                    delegations: credited(self.delegations, delegate, amount),
                    total_delegation_amount: self.total_delegation_amount + amount,
                    ..self
                },
            )
        }
    }

    /// `amount` more is locked.
    pub open spec fn lock(self, amount: nat) -> ContractView {
        ContractView { locked_amount: self.locked_amount + amount, ..self }
    }

    /// `donor` gives `amount` to the organisation as a whole.
    pub open spec fn open_donate(self, donor: Seq<char>, amount: nat) -> Result<
        ContractView,
        DaoError,
    > {
        if balance_in(self.donations, donor) + amount > u128::MAX {
            Err(DaoError::Overflow)
        } else {
            Ok(ContractView { donations: credited(self.donations, donor, amount), ..self })
        }
    }

    /// A new proposal of the given kind is stored under the next proposal id.
    pub open spec fn add_proposal(self, kind: ProposalKind) -> Result<ContractView, DaoError> {
        if self.last_proposal_id == u64::MAX {
            Err(DaoError::Overflow)
        } else {
            Ok(
                ContractView {
                    proposals: self.proposals.insert(
                        self.last_proposal_id,
                        ProposalView { kind, donations: Map::empty(), total_donations: 0 },
                    ),
                    last_proposal_id: (self.last_proposal_id + 1) as u64,
                    ..self
                },
            )
        }
    }

    /// `donor` gives `amount` to the proposal stored under `id`.
    pub open spec fn donate_to_proposal(self, id: u64, donor: Seq<char>, amount: nat) -> Result<
        ContractView,
        DaoError,
    > {
        if !self.proposals.dom().contains(id) {
            Err(DaoError::NoProposal)
        } else {
            match self.proposals[id].donate(donor, amount) {
                Ok(proposal) => Ok(
                    ContractView { proposals: self.proposals.insert(id, proposal), ..self },
                ),
                Err(reason) => Err(reason),
            }
        }
    }

    /// The bounty that `input` describes is stored under the next bounty id.
    pub open spec fn create_bounty(self, input: BountyInputView) -> Result<ContractView, DaoError> {
        if !self.accepts_token(input.token) {
            Err(DaoError::InvalidTokenAccount)
        } else if self.last_bounty_id == u64::MAX {
            Err(DaoError::Overflow)
        } else {
            Ok(
                ContractView {
                    bounties: self.bounties.insert(
                        self.last_bounty_id,
                        input.stored_as(self.last_bounty_id),
                    ),
                    last_bounty_id: (self.last_bounty_id + 1) as u64,
                    ..self
                },
            )
        }
    }

    /// What the notification of a transfer does. `caller` is the account
    /// that notifies, which has to be the configured token contract;
    /// `sender` is the account that sent `amount` tokens; `args` is the
    /// decoded message, `None` where the message did not decode. A transfer
    /// is either taken whole, giving the state after it, or rejected with
    /// its reason.
    pub open spec fn transfer(
        self,
        caller: Seq<char>,
        sender: Seq<char>,
        amount: nat,
        args: Option<TransferArgsView>,
    ) -> Result<ContractView, DaoError> {
        match args {
            None => Err(DaoError::InvalidTransferArgs),
            Some(args) => match args.transfer_type {
                TransferPurpose::Delegate => {
                    if !self.accepts_token(caller) {
                        Err(DaoError::InvalidTokenAccount)
                    } else if self.locked_amount + amount > u128::MAX {
                        Err(DaoError::Overflow)
                    } else {
                        match self.delegate(args.delegate, amount) {
                            Ok(after) => Ok(after.lock(amount)),
                            Err(reason) => Err(reason),
                        }
                    }
                },
                TransferPurpose::OpenDonate => {
                    if !self.accepts_token(caller) {
                        Err(DaoError::InvalidTokenAccount)
                    } else {
                        self.open_donate(sender, amount)
                    }
                },
                TransferPurpose::ProposalDonate => {
                    if !self.accepts_token(caller) {
                        Err(DaoError::InvalidTokenAccount)
                    } else {
                        match args.proposal {
                            None => Err(DaoError::ProposalIdNotProvided),
                            Some(id) => self.donate_to_proposal(id, sender, amount),
                        }
                    }
                },
                TransferPurpose::CreateBounty => {
                    match args.bounty_input {
                        None => Err(DaoError::BountyInputNotFound),
                        Some(input) => self.create_bounty(input),
                    }
                },
            },
        }
    }
}

} // verus!
