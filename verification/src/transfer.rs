//! The one entry point through which tokens reach the organisation.

use crate::contract::Contract;
use crate::error::DaoError;
use crate::types::{TransferArgs, TransferArgsView, TransferPurpose};
use vstd::prelude::*;

verus! {

/// The transfer arguments as a value, where there are any.
pub open spec fn args_view(args: Option<TransferArgs>) -> Option<TransferArgsView> {
    match args {
        Some(args) => Some(args@),
        None => None,
    }
}

impl Contract {
    /// Takes the notification of a transfer of `amount` tokens from
    /// `sender_id`. `predecessor_id` is the account that notifies; `args` is
    /// the decoded message of the transfer, `None` where it did not decode.
    ///
    /// The transfer is routed by its purpose and either taken whole or
    /// rejected: the result is the amount handed back to the sender, which
    /// is always zero, or the reason for the rejection, and a rejected
    /// transfer leaves the state as it was.
    pub fn ft_on_transfer(
        &mut self,
        predecessor_id: &String,
        sender_id: &String,
        amount: u128,
        args: Option<TransferArgs>,
    ) -> (result: Result<u128, DaoError>)
        requires
            old(self).wf(),
        ensures
            final(self).wf(),
            match old(self)@.transfer(predecessor_id@, sender_id@, amount as nat, args_view(args)) {
                Ok(after) => result == Ok::<u128, DaoError>(0) && final(self)@ == after,
                Err(reason) => result == Err::<u128, DaoError>(reason) && *final(self) == *old(
                    self,
                ),
            },
    {
        let TransferArgs { delegate, proposal, transfer_type, bounty_input } = match args {
            Some(args) => args,
            None => {
                return Err(DaoError::InvalidTransferArgs);
            },
        };
        match transfer_type {
            TransferPurpose::Delegate => {
                self.assert_account_id(predecessor_id)?;
                let locked = match self.locked_amount.checked_add(amount) {
                    Some(locked) => locked,
                    None => {
                        return Err(DaoError::Overflow);
                    },
                };
                self.internal_delegate(&delegate, amount)?;
                self.locked_amount = locked;
            },
            TransferPurpose::OpenDonate => {
                self.assert_account_id(predecessor_id)?;
                self.open_donate(sender_id, amount)?;
            },
            TransferPurpose::ProposalDonate => {
                self.assert_account_id(predecessor_id)?;
                let proposal_id = match proposal {
                    Some(id) => id,
                    None => {
                        return Err(DaoError::ProposalIdNotProvided);
                    },
                };
                self.donate_to_proposal(proposal_id, sender_id, amount)?;
            },
            TransferPurpose::CreateBounty => {
                let input = match bounty_input {
                    Some(input) => input,
                    None => {
                        return Err(DaoError::BountyInputNotFound);
                    },
                };
                self.create_bounty(input)?;
            },
        }
        Ok(0)
    }
}

} // verus!
