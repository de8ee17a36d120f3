//! The check that stands before every credit.

use crate::contract::Contract;
use crate::error::DaoError;
use vstd::prelude::*;

verus! {

impl Contract {
    /// Accepts `candidate` only where it is the configured token contract,
    /// so that no other contract can forge a credit.
    pub fn assert_account_id(&self, candidate: &String) -> (result: Result<(), DaoError>)
        ensures
            result == (if self@.accepts_token(candidate@) {
                Ok::<(), DaoError>(())
            } else {
                Err(DaoError::InvalidTokenAccount)
            }),
    {
        if *candidate == self.token_account_id {
            Ok(())
        } else {
            Err(DaoError::InvalidTokenAccount)
        }
    }
}

} // verus!
