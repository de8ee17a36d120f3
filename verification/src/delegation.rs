//! Delegations.

use crate::contract::Contract;
use crate::error::DaoError;
use vstd::prelude::*;

verus! {

impl Contract {
    /// Adds `amount` to what is delegated to `delegate` and to the total of
    /// all delegations.
    pub fn internal_delegate(&mut self, delegate: &String, amount: u128) -> (result: Result<
        (),
        DaoError,
    >)
        requires
            old(self).wf(),
        ensures
            final(self).wf(),
            match old(self)@.delegate(delegate@, amount as nat) {
                Ok(after) => result is Ok && final(self)@ == after,
                Err(reason) => result == Err::<(), DaoError>(reason) && *final(self) == *old(self),
            },
    {
        match self.total_delegation_amount.checked_add(amount) {
            None => Err(DaoError::Overflow),
            Some(total) => {
                proof {
                    self.delegations.lemma_balance_at_most_total(delegate@);
                }
                self.total_delegation_amount = total;
                let done = self.delegations.credit(delegate, amount);
                assert(done);
                Ok(())
            },
        }
    }
}

} // verus!
