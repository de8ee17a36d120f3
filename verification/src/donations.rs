//! Donations to the organisation as a whole.

use crate::contract::Contract;
use crate::error::DaoError;
use vstd::prelude::*;

verus! {

impl Contract {
    /// Adds `amount` to what `donor` has given to the organisation.
    pub fn open_donate(&mut self, donor: &String, amount: u128) -> (result: Result<(), DaoError>)
        requires
            old(self).wf(),
        ensures
            final(self).wf(),
            match old(self)@.open_donate(donor@, amount as nat) {
                Ok(after) => result is Ok && final(self)@ == after,
                Err(reason) => result == Err::<(), DaoError>(reason) && *final(self) == *old(self),
            },
    {
        if self.donations.credit(donor, amount) {
            Ok(())
        } else {
            Err(DaoError::Overflow)
        }
    }
}

} // verus!
