//! Bounties and what is needed to create one.

use crate::contract::Contract;
use crate::error::DaoError;
use vstd::prelude::*;

verus! {

/// What a transfer supplies to create a bounty.
#[derive(Clone, Debug, PartialEq, Eq)]
pub struct BountyInput {
    /// The token contract in whose tokens the bounty pays out.
    pub token: String,
    pub title: String,
    pub reward: u128,
    pub deadline: u64,
}

/// A stored bounty.
#[derive(Clone, Debug, PartialEq, Eq)]
pub struct Bounty {
    pub id: u64,
    pub token: String,
    pub title: String,
    pub reward: u128,
    pub deadline: u64,
}

/// A bounty description as a value.
pub struct BountyInputView {
    pub token: Seq<char>,
    pub title: Seq<char>,
    pub reward: u128,
    pub deadline: u64,
}

/// A stored bounty as a value.
pub struct BountyView {
    pub id: u64,
    pub token: Seq<char>,
    pub title: Seq<char>,
    pub reward: u128,
    pub deadline: u64,
}

impl BountyInputView {
    /// The bounty that this description becomes when it is stored under `id`.
    pub open spec fn stored_as(self, id: u64) -> BountyView {
        BountyView {
            id,
            token: self.token,
            title: self.title,
            reward: self.reward,
            deadline: self.deadline,
        }
    }
}

impl View for BountyInput {
    type V = BountyInputView;

    open spec fn view(&self) -> BountyInputView {
        BountyInputView {
            token: self.token@,
            title: self.title@,
            reward: self.reward,
            deadline: self.deadline,
        }
    }
}

impl View for Bounty {
    type V = BountyView;

    open spec fn view(&self) -> BountyView {
        BountyView {
            id: self.id,
            token: self.token@,
            title: self.title@,
            reward: self.reward,
            deadline: self.deadline,
        }
    }
}

impl Bounty {
    /// The bounty that `input` describes, under the id `id`.
    pub fn from_input(id: u64, input: BountyInput) -> (bounty: Bounty)
        ensures
            bounty@ == input@.stored_as(id),
    {
        Bounty {
            id,
            token: input.token,
            title: input.title,
            reward: input.reward,
            deadline: input.deadline,
        }
    }
}

impl Contract {
    /// Stores the bounty that `input` describes under the next bounty id and
    /// returns that id. The bounty has to pay out in the configured token.
    pub fn create_bounty(&mut self, input: BountyInput) -> (result: Result<u64, DaoError>)
        requires
            old(self).wf(),
        ensures
            final(self).wf(),
            match old(self)@.create_bounty(input@) {
                Ok(after) => result == Ok::<u64, DaoError>(old(self).last_bounty_id)
                    && final(self)@ == after,
                Err(reason) => result == Err::<u64, DaoError>(reason) && *final(self) == *old(
                    self,
                ),
            },
    {
        match self.assert_account_id(&input.token) {
            Err(reason) => {
                return Err(reason);
            },
            Ok(()) => {},
        }
        if self.last_bounty_id == u64::MAX {
            return Err(DaoError::Overflow);
        }
        let id = self.last_bounty_id;
        self.bounties.push(Bounty::from_input(id, input));
        self.last_bounty_id = id + 1;
        assert(self@.bounties =~= old(self)@.create_bounty(input@)->Ok_0.bounties);
        Ok(id)
    }
}

} // verus!
