//! What holds of every transfer, stated over the state as a value.

use crate::contract::Contract;
use crate::error::DaoError;
use crate::ledger::balance_in;
use crate::model::ContractView;
use crate::proposals::ProposalKind;
use crate::types::{TransferArgsView, TransferPurpose};
use vstd::prelude::*;

verus! {

impl ContractView {
    /// The ids given out so far are exactly those below the two counters,
    /// and each bounty carries the id that it is stored under.
    pub open spec fn wf(self) -> bool {
        &&& forall|id: u64| self.proposals.dom().contains(id) <==> id < self.last_proposal_id
        &&& forall|id: u64| self.bounties.dom().contains(id) <==> id < self.last_bounty_id
        &&& forall|id: u64| self.bounties.dom().contains(id) ==> (#[trigger] self.bounties[id]).id == id
    }
}

impl Contract {
    /// A well-formed state is well formed as a value.
    pub proof fn lemma_view_wf(&self)
        requires
            self.wf(),
        ensures
            self@.wf(),
    {
    }
}

/// An accepted delegation adds exactly the amount to what is delegated to the
/// delegate, to the total of all delegations and to the locked amount. No
/// other delegation changes, and neither do the donations, the proposals or
/// the bounties.
pub proof fn lemma_delegate_adds_amount(
    before: ContractView,
    caller: Seq<char>,
    sender: Seq<char>,
    amount: nat,
    args: TransferArgsView,
)
    requires
        args.transfer_type == TransferPurpose::Delegate,
        before.transfer(caller, sender, amount, Some(args)) is Ok,
    ensures
        ({
            let after = before.transfer(caller, sender, amount, Some(args))->Ok_0;
            &&& balance_in(after.delegations, args.delegate) == balance_in(
                before.delegations,
                args.delegate,
            ) + amount
            &&& after.locked_amount == before.locked_amount + amount
            &&& after.total_delegation_amount == before.total_delegation_amount + amount
            &&& forall|other: Seq<char>|
                other != args.delegate ==> balance_in(after.delegations, other) == balance_in(
                    before.delegations,
                    other,
                )
            &&& after.donations == before.donations
            &&& after.proposals == before.proposals
            &&& after.bounties == before.bounties
            &&& after.last_proposal_id == before.last_proposal_id
            &&& after.last_bounty_id == before.last_bounty_id
        }),
{
}

/// An accepted open donation adds exactly the amount to what the sender has
/// donated, and changes nothing else.
pub proof fn lemma_open_donate_adds_amount(
    before: ContractView,
    caller: Seq<char>,
    sender: Seq<char>,
    amount: nat,
    args: TransferArgsView,
)
    requires
        args.transfer_type == TransferPurpose::OpenDonate,
        before.transfer(caller, sender, amount, Some(args)) is Ok,
    ensures
        ({
            let after = before.transfer(caller, sender, amount, Some(args))->Ok_0;
            &&& balance_in(after.donations, sender) == balance_in(before.donations, sender)
                + amount
            &&& forall|other: Seq<char>|
                other != sender ==> balance_in(after.donations, other) == balance_in(
                    before.donations,
                    other,
                )
            &&& after == (ContractView { donations: after.donations, ..before })
        }),
{
}

/// An accepted donation to a proposal adds exactly the amount to what the
/// sender has donated to that proposal and to the proposal's total. The
/// proposal keeps its kind, and no other proposal changes.
pub proof fn lemma_proposal_donate_adds_amount(
    before: ContractView,
    caller: Seq<char>,
    sender: Seq<char>,
    amount: nat,
    args: TransferArgsView,
)
    requires
        args.transfer_type == TransferPurpose::ProposalDonate,
        before.transfer(caller, sender, amount, Some(args)) is Ok,
    ensures
        ({
            let after = before.transfer(caller, sender, amount, Some(args))->Ok_0;
            &&& args.proposal is Some
            &&& before.proposals.dom().contains(args.proposal->Some_0)
            &&& before.proposals[args.proposal->Some_0].kind == ProposalKind::Donate
            &&& after.proposals.dom() == before.proposals.dom()
            &&& after.proposals[args.proposal->Some_0].kind == ProposalKind::Donate
            &&& balance_in(after.proposals[args.proposal->Some_0].donations, sender) == balance_in(
                before.proposals[args.proposal->Some_0].donations,
                sender,
            ) + amount
            &&& after.proposals[args.proposal->Some_0].total_donations
                == before.proposals[args.proposal->Some_0].total_donations + amount
            &&& forall|other: u64|
                other != args.proposal->Some_0 && before.proposals.dom().contains(other)
                    ==> after.proposals[other] == before.proposals[other]
            &&& after == (ContractView { proposals: after.proposals, ..before })
        }),
{
    let id = args.proposal->Some_0;
    let after = before.transfer(caller, sender, amount, Some(args))->Ok_0;
    assert(after.proposals.dom() =~= before.proposals.dom());
}

/// A donation to a proposal from the configured token contract is rejected
/// for want of a proposal id where the arguments name none, for want of the
/// proposal where none is stored under the id, and for its kind where the
/// stored proposal is not one that takes donations.
pub proof fn lemma_proposal_donate_rejections(
    before: ContractView,
    caller: Seq<char>,
    sender: Seq<char>,
    amount: nat,
    args: TransferArgsView,
)
    requires
        args.transfer_type == TransferPurpose::ProposalDonate,
        before.accepts_token(caller),
    ensures
        args.proposal is None ==> before.transfer(caller, sender, amount, Some(args)) == Err::<
            ContractView,
            DaoError,
        >(DaoError::ProposalIdNotProvided),
        args.proposal is Some && !before.proposals.dom().contains(args.proposal->Some_0)
            ==> before.transfer(caller, sender, amount, Some(args)) == Err::<
            ContractView,
            DaoError,
        >(DaoError::NoProposal),
        args.proposal is Some && before.proposals.dom().contains(args.proposal->Some_0)
            && before.proposals[args.proposal->Some_0].kind != ProposalKind::Donate
            ==> before.transfer(caller, sender, amount, Some(args)) == Err::<
            ContractView,
            DaoError,
        >(DaoError::ProposalNotDonationKind),
{
}

/// An accepted bounty is stored under an id that no bounty had before, and
/// the id that the next bounty gets is above it. The bounties stored before
/// stay as they were, and nothing else changes.
pub proof fn lemma_create_bounty_takes_fresh_id(
    before: ContractView,
    caller: Seq<char>,
    sender: Seq<char>,
    amount: nat,
    args: TransferArgsView,
)
    requires
        before.wf(),
        args.transfer_type == TransferPurpose::CreateBounty,
        before.transfer(caller, sender, amount, Some(args)) is Ok,
    ensures
        ({
            let after = before.transfer(caller, sender, amount, Some(args))->Ok_0;
            let id = before.last_bounty_id;
            &&& args.bounty_input is Some
            &&& !before.bounties.dom().contains(id)
            &&& after.bounties.dom().contains(id)
            &&& after.bounties[id] == args.bounty_input->Some_0.stored_as(id)
            &&& after.last_bounty_id == id + 1
            &&& forall|other: u64|
                before.bounties.dom().contains(other) ==> other < id
                    && after.bounties.dom().contains(other) && after.bounties[other]
                    == before.bounties[other]
            &&& after == (ContractView {
                bounties: after.bounties,
                last_bounty_id: after.last_bounty_id,
                ..before
            })
            &&& after.wf()
        }),
{
}

/// A transfer that is to create a bounty and describes none is rejected.
pub proof fn lemma_create_bounty_needs_input(
    before: ContractView,
    caller: Seq<char>,
    sender: Seq<char>,
    amount: nat,
    args: TransferArgsView,
)
    requires
        args.transfer_type == TransferPurpose::CreateBounty,
        args.bounty_input is None,
    ensures
        before.transfer(caller, sender, amount, Some(args)) == Err::<ContractView, DaoError>(
            DaoError::BountyInputNotFound,
        ),
{
}

/// The account that a transfer has to show as the token contract: the
/// notifying account for a delegation or a donation, the bounty's own token
/// for a bounty.
pub open spec fn claimed_token(caller: Seq<char>, args: TransferArgsView) -> Option<Seq<char>> {
    match args.transfer_type {
        TransferPurpose::CreateBounty => match args.bounty_input {
            Some(input) => Some(input.token),
            None => None,
        },
        _ => Some(caller),
    }
}

/// A transfer whose claimed token contract is not the configured one is
/// rejected for that reason, whatever its purpose and whatever else it
/// holds.
pub proof fn lemma_foreign_token_rejected(
    before: ContractView,
    caller: Seq<char>,
    sender: Seq<char>,
    amount: nat,
    args: TransferArgsView,
)
    requires
        claimed_token(caller, args) is Some,
        !before.accepts_token(claimed_token(caller, args)->Some_0),
    ensures
        before.transfer(caller, sender, amount, Some(args)) == Err::<ContractView, DaoError>(
            DaoError::InvalidTokenAccount,
        ),
{
}

/// Two accepted donations of one sender to one proposal add up: after both,
/// the sender's donation to the proposal is what it was plus both amounts.
pub proof fn lemma_proposal_donations_accumulate(
    before: ContractView,
    caller: Seq<char>,
    sender: Seq<char>,
    first: nat,
    second: nat,
    args: TransferArgsView,
)
    requires
        args.transfer_type == TransferPurpose::ProposalDonate,
        before.transfer(caller, sender, first, Some(args)) is Ok,
        before.transfer(caller, sender, first, Some(args))->Ok_0.transfer(
            caller,
            sender,
            second,
            Some(args),
        ) is Ok,
    ensures
        ({
            let id = args.proposal->Some_0;
            let between = before.transfer(caller, sender, first, Some(args))->Ok_0;
            let after = between.transfer(caller, sender, second, Some(args))->Ok_0;
            &&& balance_in(after.proposals[id].donations, sender) == balance_in(
                before.proposals[id].donations,
                sender,
            ) + first + second
            &&& after.proposals[id].total_donations == before.proposals[id].total_donations
                + first + second
        }),
{
    let between = before.transfer(caller, sender, first, Some(args))->Ok_0;
    lemma_proposal_donate_adds_amount(before, caller, sender, first, args);
    lemma_proposal_donate_adds_amount(between, caller, sender, second, args);
}

/// No accepted transfer takes anything back: the locked amount, the total
/// of the delegations and the two id counters never go down, no balance of
/// either ledger goes down, and every proposal and bounty that was stored
/// stays stored.
pub proof fn lemma_transfer_only_adds(
    before: ContractView,
    caller: Seq<char>,
    sender: Seq<char>,
    amount: nat,
    args: Option<TransferArgsView>,
)
    requires
        before.transfer(caller, sender, amount, args) is Ok,
    ensures
        ({
            let after = before.transfer(caller, sender, amount, args)->Ok_0;
            &&& after.locked_amount >= before.locked_amount
            &&& after.total_delegation_amount >= before.total_delegation_amount
            &&& after.last_proposal_id >= before.last_proposal_id
            &&& after.last_bounty_id >= before.last_bounty_id
            &&& after.token_account_id == before.token_account_id
            &&& after.owner_id == before.owner_id
            &&& after.dao_metadata == before.dao_metadata
            &&& forall|account: Seq<char>|
                balance_in(after.delegations, account) >= balance_in(before.delegations, account)
            &&& forall|account: Seq<char>|
                balance_in(after.donations, account) >= balance_in(before.donations, account)
            &&& forall|id: u64|
                before.proposals.dom().contains(id) ==> after.proposals.dom().contains(id)
            &&& forall|id: u64|
                before.bounties.dom().contains(id) ==> after.bounties.dom().contains(id)
        }),
{
}

} // verus!
