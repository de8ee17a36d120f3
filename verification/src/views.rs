//! What can be read off the state.

use crate::bounty::Bounty;
use crate::contract::Contract;
use crate::ledger::balance_in;
use crate::proposals::Proposal;
use vstd::prelude::*;

verus! {

impl Contract {
    /// The sum of what delegate transfers have locked.
    pub fn get_locked_amount(&self) -> (amount: u128)
        ensures
            amount == self@.locked_amount,
    {
        self.locked_amount
    }

    /// The sum of all delegations.
    pub fn delegation_total_supply(&self) -> (amount: u128)
        ensures
            amount == self@.total_delegation_amount,
    {
        self.total_delegation_amount
    }

    /// What is delegated to `account`: zero where nothing was.
    pub fn delegation_balance_of(&self, account: &String) -> (amount: u128)
        requires
            self.wf(),
        ensures
            amount == balance_in(self@.delegations, account@),
    {
        self.delegations.get(account)
    }

    /// What `account` has donated to the organisation as a whole: zero where
    /// it has donated nothing.
    pub fn donation_of(&self, account: &String) -> (amount: u128)
        requires
            self.wf(),
        ensures
            amount == balance_in(self@.donations, account@),
    {
        self.donations.get(account)
    }

    /// The id that the next proposal gets.
    pub fn get_last_proposal_id(&self) -> (id: u64)
        ensures
            id == self@.last_proposal_id,
    {
        self.last_proposal_id
    }

    /// The proposal stored under `id`, if there is one.
    pub fn get_proposal(&self, id: u64) -> (found: Option<&Proposal>)
        requires
            self.wf(),
        ensures
            match found {
                Some(proposal) => self@.proposals.dom().contains(id) && proposal@
                    == self@.proposals[id] && proposal.wf(),
                None => !self@.proposals.dom().contains(id),
            },
    {
        if id < self.proposals.len() as u64 {
            Some(&self.proposals[id as usize])
        } else {
            None
        }
    }

    /// What `account` has donated to the proposal stored under `id`, if
    /// there is such a proposal.
    pub fn proposal_donation_of(&self, id: u64, account: &String) -> (found: Option<u128>)
        requires
            self.wf(),
        ensures
            match found {
                Some(amount) => self@.proposals.dom().contains(id) && amount == balance_in(
                    self@.proposals[id].donations,
                    account@,
                ),
                None => !self@.proposals.dom().contains(id),
            },
    {
        match self.get_proposal(id) {
            Some(proposal) => Some(proposal.donations.get(account)),
            None => None,
        }
    }

    /// The id that the next bounty gets.
    pub fn get_last_bounty_id(&self) -> (id: u64)
        ensures
            id == self@.last_bounty_id,
    {
        self.last_bounty_id
    }

    /// The bounty stored under `id`, if there is one.
    pub fn get_bounty(&self, id: u64) -> (found: Option<&Bounty>)
        requires
            self.wf(),
        ensures
            match found {
                Some(bounty) => self@.bounties.dom().contains(id) && bounty@
                    == self@.bounties[id],
                None => !self@.bounties.dom().contains(id),
            },
    {
        if id < self.bounties.len() as u64 {
            Some(&self.bounties[id as usize])
        } else {
            None
        }
    }
}

} // verus!
