//! The state of the organisation and how it comes into being.

use crate::bounty::Bounty;
use crate::error::DaoError;
use crate::ledger::Ledger;
use crate::model::ContractView;
use crate::proposals::Proposal;
use crate::types::DaoMetadata;
use vstd::prelude::*;

verus! {

#[derive(Clone, Debug, PartialEq, Eq)]
pub struct Contract {
    pub dao_metadata: DaoMetadata,
    /// The sum of what delegate transfers have locked.
    pub locked_amount: u128,
    /// The one token contract whose notifications count.
    pub token_account_id: String,
    /// The sum of all delegations.
    pub total_delegation_amount: u128,
    /// The delegations by delegate.
    pub delegations: Ledger,
    /// The id that the next proposal gets.
    pub last_proposal_id: u64,
    /// The proposals, each at the place of its id.
    pub proposals: Vec<Proposal>,
    /// The open donations by donor.
    pub donations: Ledger,
    pub owner_id: String,
    /// The id that the next bounty gets.
    pub last_bounty_id: u64,
    /// The bounties, each at the place of its id.
    pub bounties: Vec<Bounty>,
}

impl View for Contract {
    type V = ContractView;

    open spec fn view(&self) -> ContractView {
        ContractView {
            dao_metadata: self.dao_metadata@,
            locked_amount: self.locked_amount as nat,
            token_account_id: self.token_account_id@,
            total_delegation_amount: self.total_delegation_amount as nat,
            delegations: self.delegations@,
            last_proposal_id: self.last_proposal_id,
            proposals: Map::new(
                |id: u64| id < self.proposals@.len(),
                |id: u64| self.proposals@[id as int]@,
            ),
            donations: self.donations@,
            owner_id: self.owner_id@,
            last_bounty_id: self.last_bounty_id,
            bounties: Map::new(
                |id: u64| id < self.bounties@.len(),
                |id: u64| self.bounties@[id as int]@,
            ),
        }
    }
}

impl Contract {
    /// The state is well formed when its ledgers and proposals are, the
    /// delegations sum to no more than the recorded total, and the ids given
    /// out so far are exactly those below the two counters, each bounty
    /// carrying the id that it is stored under.
    pub open spec fn wf(&self) -> bool {
        &&& self.delegations.wf()
        &&& self.donations.wf()
        &&& self.delegations.total() <= self.total_delegation_amount
        &&& self.proposals@.len() == self.last_proposal_id
        &&& forall|i: int| 0 <= i < self.proposals@.len() ==> (#[trigger] self.proposals@[i]).wf()
        &&& self.bounties@.len() == self.last_bounty_id
        &&& forall|i: int| 0 <= i < self.bounties@.len() ==> (#[trigger] self.bounties@[i]).id == i
    }

    /// A fresh state: nothing stored, all counters zero, `owner_id` as the
    /// owner.
    pub fn new(metadata: DaoMetadata, token_contract_id: String, owner_id: String) -> (this:
        Contract)
        ensures
            this.wf(),
            this@ == ContractView::initial(metadata@, token_contract_id@, owner_id@),
    {
        let this = Contract {
            dao_metadata: metadata,
            token_account_id: token_contract_id,
            total_delegation_amount: 0,
            delegations: Ledger::new(),
            last_proposal_id: 0,
            proposals: Vec::new(),
            locked_amount: 0,
            donations: Ledger::new(),
            owner_id,
            last_bounty_id: 0,
            bounties: Vec::new(),
        };
        assert(this@.proposals =~= Map::empty());
        assert(this@.bounties =~= Map::empty());
        this
    }

    /// Hands back the stored state as it is. Only the contract itself may
    /// ask: `predecessor_id` is the account that asks, `current_id` the
    /// contract's own, `stored` the state read back, if there was one.
    pub fn migrate(predecessor_id: &String, current_id: &String, stored: Option<Contract>) -> (result:
        Result<Contract, DaoError>)
        ensures
            result == (if predecessor_id@ != current_id@ {
                Err::<Contract, DaoError>(DaoError::NotAllowed)
            } else {
                match stored {
                    Some(state) => Ok(state),
                    None => Err(DaoError::ContractNotInitialized),
                }
            }),
    {
        if *predecessor_id != *current_id {
            return Err(DaoError::NotAllowed);
        }
        match stored {
            Some(state) => Ok(state),
            None => Err(DaoError::ContractNotInitialized),
        }
    }

    /// Whether the state is well formed: the test to make on a state that
    /// comes from elsewhere before anything is done with it.
    pub fn is_well_formed(&self) -> (ok: bool)
        ensures
            ok == self.wf(),
    {
        if !self.delegations.is_well_formed() || !self.donations.is_well_formed() {
            return false;
        }
        match self.delegations.checked_total() {
            Some(sum) => {
                if sum > self.total_delegation_amount {
                    return false;
                }
            },
            None => {
                return false;
            },
        }
        let proposals = self.proposals.len();
        let bounties = self.bounties.len();
        if proposals as u64 != self.last_proposal_id {
            return false;
        }
        if bounties as u64 != self.last_bounty_id {
            return false;
        }
        let mut i: usize = 0;
        while i < proposals
            invariant
                i <= proposals == self.proposals@.len(),
                forall|k: int| 0 <= k < i ==> (#[trigger] self.proposals@[k]).wf(),
            decreases proposals - i,
        {
            if !self.proposals[i].is_well_formed() {
                return false;
            }
            i += 1;
        }
        let mut j: usize = 0;
        while j < bounties
            invariant
                j <= bounties == self.bounties@.len(),
                bounties <= u64::MAX,
                forall|k: int| 0 <= k < j ==> (#[trigger] self.bounties@[k]).id == k,
            decreases bounties - j,
        {
            if self.bounties[j].id != j as u64 {
                return false;
            }
            j += 1;
        }
        true
    }
}

} // verus!
