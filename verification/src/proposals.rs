//! Proposals and the donations made to them.

use crate::contract::Contract;
use crate::error::DaoError;
use crate::ledger::{credited, Ledger};
use vstd::prelude::*;

verus! {

/// What a proposal is for. Only a `Donate` proposal takes donations.
#[derive(Clone, Copy, Debug, PartialEq, Eq, Structural)]
pub enum ProposalKind {
    Donate,
    Vote,
}

/// A proposal with what was donated to it so far.
#[derive(Clone, Debug, PartialEq, Eq)]
pub struct Proposal {
    pub kind: ProposalKind,
    /// The donations by donor.
    pub donations: Ledger,
    /// The sum of all donations.
    pub total_donations: u128,
}

/// A proposal as a value: its kind, the donation of each donor, their sum.
pub struct ProposalView {
    pub kind: ProposalKind,
    pub donations: Map<Seq<char>, nat>,
    pub total_donations: nat,
}

impl ProposalView {
    /// The total of the proposal after a donation of `amount`. A proposal of
    /// another kind takes nothing, and neither does one whose total would no
    /// longer fit.
    pub open spec fn total_after(self, amount: nat) -> Result<nat, DaoError> {
        if self.kind != ProposalKind::Donate {
            Err(DaoError::ProposalNotDonationKind)
        } else if self.total_donations + amount > u128::MAX {
            Err(DaoError::Overflow)
        } else {
            Ok(self.total_donations + amount)
        }
    }

    /// The proposal after `donor` gave `amount`: earlier donations of the
    /// same donor stay and the new one is added to them.
    pub open spec fn donate(self, donor: Seq<char>, amount: nat) -> Result<ProposalView, DaoError> {
        match self.total_after(amount) {
            Ok(total) => Ok(
                ProposalView {
                    kind: self.kind,
                    donations: credited(self.donations, donor, amount),
                    total_donations: total,
                },
            ),
            Err(reason) => Err(reason),
        }
    }
}

impl View for Proposal {
    type V = ProposalView;

    open spec fn view(&self) -> ProposalView {
        ProposalView {
            kind: self.kind,
            donations: self.donations@,
            total_donations: self.total_donations as nat,
        }
    }
}

impl Proposal {
    /// A proposal is well formed when its ledger is and its total is the sum
    /// of the ledger.
    pub open spec fn wf(&self) -> bool {
        &&& self.donations.wf()
        &&& self.donations.total() == self.total_donations
    }

    /// A proposal of the given kind that nobody has donated to.
    pub fn new(kind: ProposalKind) -> (proposal: Proposal)
        ensures
            proposal.wf(),
            proposal@ == (ProposalView {
                kind,
                donations: Map::<Seq<char>, nat>::empty(),
                total_donations: 0,
            }),
    {
        Proposal { kind, donations: Ledger::new(), total_donations: 0 }
    }

    /// Whether the proposal is well formed.
    pub fn is_well_formed(&self) -> (ok: bool)
        ensures
            ok == self.wf(),
    {
        if !self.donations.is_well_formed() {
            return false;
        }
        match self.donations.checked_total() {
            Some(sum) => sum == self.total_donations,
            None => false,
        }
    }

    /// The total of the proposal after a donation of `amount`, or why the
    /// proposal would not take it.
    pub fn total_after(&self, amount: u128) -> (result: Result<u128, DaoError>)
        ensures
            match self@.total_after(amount as nat) {
                Ok(total) => result is Ok && result->Ok_0 == total,
                Err(reason) => result == Err::<u128, DaoError>(reason),
            },
    {
        match self.kind {
            ProposalKind::Donate => {},
            _ => {
                return Err(DaoError::ProposalNotDonationKind);
            },
        }
        match self.total_donations.checked_add(amount) {
            Some(total) => Ok(total),
            None => Err(DaoError::Overflow),
        }
    }

    /// Records that `donor` gave `amount` to this proposal.
    pub fn donate(&mut self, donor: &String, amount: u128) -> (result: Result<(), DaoError>)
        requires
            old(self).wf(),
        ensures
            final(self).wf(),
            match old(self)@.donate(donor@, amount as nat) {
                Ok(after) => result is Ok && final(self)@ == after,
                Err(reason) => result == Err::<(), DaoError>(reason) && *final(self) == *old(self),
            },
    {
        let total = self.total_after(amount)?;
        proof {
            self.donations.lemma_balance_at_most_total(donor@);
        }
        let done = self.donations.credit(donor, amount);
        assert(done);
        self.total_donations = total;
        Ok(())
    }
}

impl Contract {
    /// Stores a new proposal of the given kind under the next proposal id
    /// and returns that id.
    pub fn add_proposal(&mut self, kind: ProposalKind) -> (result: Result<u64, DaoError>)
        requires
            old(self).wf(),
        ensures
            final(self).wf(),
            match old(self)@.add_proposal(kind) {
                Ok(after) => result == Ok::<u64, DaoError>(old(self).last_proposal_id)
                    && final(self)@ == after,
                Err(reason) => result == Err::<u64, DaoError>(reason) && *final(self) == *old(
                    self,
                ),
            },
    {
        if self.last_proposal_id == u64::MAX {
            return Err(DaoError::Overflow);
        }
        let id = self.last_proposal_id;
        self.proposals.push(Proposal::new(kind));
        self.last_proposal_id = id + 1;
        assert(self@.proposals =~= old(self)@.add_proposal(kind)->Ok_0.proposals);
        Ok(id)
    }

    /// Records that `donor` gave `amount` to the proposal stored under
    /// `proposal_id`. What the same donor gave before stays and grows by
    /// `amount`.
    pub fn donate_to_proposal(&mut self, proposal_id: u64, donor: &String, amount: u128) -> (result:
        Result<(), DaoError>)
        requires
            old(self).wf(),
        ensures
            final(self).wf(),
            match old(self)@.donate_to_proposal(proposal_id, donor@, amount as nat) {
                Ok(after) => result is Ok && final(self)@ == after,
                Err(reason) => result == Err::<(), DaoError>(reason) && *final(self) == *old(self),
            },
    {
        let count = self.proposals.len();
        if proposal_id >= count as u64 {
            return Err(DaoError::NoProposal);
        }
        let place = proposal_id as usize;
        self.proposals[place].total_after(amount)?;
        let result = self.proposals[place].donate(donor, amount);
        proof {
            let after = old(self)@.donate_to_proposal(proposal_id, donor@, amount as nat)->Ok_0;
            assert(self@.proposals =~= after.proposals);
        }
        result
    }
}

} // verus!
