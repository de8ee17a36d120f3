use connesus_dao::{
    Bounty, BountyInput, Contract, DaoError, DaoMetadata, Ledger, LedgerEntry, Proposal,
    ProposalKind, StorageKeys,
};

fn text(value: &str) -> String {
    value.to_string()
}

fn fresh() -> Contract {
    Contract::new(
        DaoMetadata { name: text("connesus"), purpose: text("research") },
        text("token.near"),
        text("owner.near"),
    )
}

#[test]
fn new_state_is_empty() {
    let dao = fresh();
    assert_eq!(dao.dao_metadata, DaoMetadata { name: text("connesus"), purpose: text("research") });
    assert_eq!(dao.token_account_id, "token.near");
    assert_eq!(dao.owner_id, "owner.near");
    assert_eq!(dao.locked_amount, 0);
    assert_eq!(dao.total_delegation_amount, 0);
    assert_eq!(dao.last_proposal_id, 0);
    assert_eq!(dao.last_bounty_id, 0);
    assert_eq!(dao.get_last_proposal_id(), 0);
    assert_eq!(dao.get_last_bounty_id(), 0);
    assert!(dao.delegations.entries.is_empty());
    assert!(dao.donations.entries.is_empty());
    assert!(dao.proposals.is_empty());
    assert!(dao.bounties.is_empty());
    assert!(dao.get_proposal(0).is_none());
    assert!(dao.get_bounty(0).is_none());
    assert!(dao.is_well_formed());
}

#[test]
fn migrate_hands_back_the_stored_state() {
    let mut dao = fresh();
    dao.internal_delegate(&text("alice.near"), 12).unwrap();
    let stored = dao.clone();
    let result = Contract::migrate(&text("dao.near"), &text("dao.near"), Some(stored));
    assert_eq!(result, Ok(dao));
}

#[test]
fn migrate_is_for_the_contract_itself() {
    let result = Contract::migrate(&text("bob.near"), &text("dao.near"), Some(fresh()));
    assert_eq!(result, Err(DaoError::NotAllowed));
    assert_eq!(result.unwrap_err().message(), "ERR_NOT_ALLOWED");
    let also = Contract::migrate(&text("bob.near"), &text("dao.near"), None);
    assert_eq!(also, Err(DaoError::NotAllowed));
}

#[test]
fn migrate_needs_a_stored_state() {
    let result = Contract::migrate(&text("dao.near"), &text("dao.near"), None);
    assert_eq!(result, Err(DaoError::ContractNotInitialized));
    assert_eq!(result.unwrap_err().message(), "ERR_CONTRACT_IS_NOT_INITIALIZED");
}

#[test]
fn assert_account_id_accepts_only_the_configured_token() {
    let dao = fresh();
    assert_eq!(dao.assert_account_id(&text("token.near")), Ok(()));
    assert_eq!(dao.assert_account_id(&text("token.nea")), Err(DaoError::InvalidTokenAccount));
    assert_eq!(dao.assert_account_id(&text("owner.near")), Err(DaoError::InvalidTokenAccount));
    assert_eq!(dao.assert_account_id(&text("")), Err(DaoError::InvalidTokenAccount));
}

#[test]
fn internal_delegate_adds_to_the_total() {
    let mut dao = fresh();
    assert_eq!(dao.internal_delegate(&text("alice.near"), 10), Ok(()));
    assert_eq!(dao.internal_delegate(&text("bob.near"), 5), Ok(()));
    assert_eq!(dao.internal_delegate(&text("alice.near"), 1), Ok(()));
    assert_eq!(dao.delegation_balance_of(&text("alice.near")), 11);
    assert_eq!(dao.delegation_balance_of(&text("bob.near")), 5);
    assert_eq!(dao.delegation_total_supply(), 16);
    assert_eq!(dao.delegations.checked_total(), Some(16));
    assert_eq!(dao.locked_amount, 0);
    let before = dao.clone();
    assert_eq!(dao.internal_delegate(&text("carol.near"), u128::MAX), Err(DaoError::Overflow));
    assert_eq!(dao, before);
}

#[test]
fn add_proposal_counts_up() {
    let mut dao = fresh();
    assert_eq!(dao.add_proposal(ProposalKind::Donate), Ok(0));
    assert_eq!(dao.add_proposal(ProposalKind::Vote), Ok(1));
    assert_eq!(dao.last_proposal_id, 2);
    assert_eq!(dao.get_proposal(0).unwrap().kind, ProposalKind::Donate);
    assert_eq!(dao.get_proposal(1).unwrap().kind, ProposalKind::Vote);
    assert!(dao.get_proposal(2).is_none());
    dao.last_proposal_id = u64::MAX;
    assert_eq!(dao.add_proposal(ProposalKind::Donate), Err(DaoError::Overflow));
}

#[test]
fn create_bounty_stops_at_the_last_id() {
    let mut dao = fresh();
    dao.last_bounty_id = u64::MAX;
    let before = dao.clone();
    let input =
        BountyInput { token: text("token.near"), title: text("t"), reward: 1, deadline: 2 };
    assert_eq!(dao.create_bounty(input), Err(DaoError::Overflow));
    assert_eq!(dao, before);
}

#[test]
fn bounty_keeps_what_its_input_says() {
    let input =
        BountyInput { token: text("token.near"), title: text("paint"), reward: 77, deadline: 9 };
    let bounty = Bounty::from_input(3, input);
    assert_eq!(
        bounty,
        Bounty { id: 3, token: text("token.near"), title: text("paint"), reward: 77, deadline: 9 }
    );
}

#[test]
fn proposal_donate_checks_kind_then_total() {
    let mut vote = Proposal::new(ProposalKind::Vote);
    assert_eq!(vote.total_after(1), Err(DaoError::ProposalNotDonationKind));
    assert_eq!(vote.donate(&text("bob.near"), 1), Err(DaoError::ProposalNotDonationKind));
    assert_eq!(vote, Proposal::new(ProposalKind::Vote));

    let mut donate = Proposal::new(ProposalKind::Donate);
    assert_eq!(donate.total_after(u128::MAX), Ok(u128::MAX));
    assert_eq!(donate.donate(&text("bob.near"), u128::MAX - 3), Ok(()));
    assert_eq!(donate.donate(&text("carol.near"), 3), Ok(()));
    assert_eq!(donate.total_after(1), Err(DaoError::Overflow));
    assert_eq!(donate.donate(&text("bob.near"), 1), Err(DaoError::Overflow));
    assert_eq!(donate.total_donations, u128::MAX);
    assert_eq!(donate.donations.get(&text("bob.near")), u128::MAX - 3);
    assert_eq!(donate.donations.get(&text("carol.near")), 3);
    assert!(donate.is_well_formed());
}

#[test]
fn ill_formed_states_are_told_apart() {
    let mut twice = fresh();
    twice.delegations.entries.push(LedgerEntry { account: text("a"), amount: 1 });
    twice.delegations.entries.push(LedgerEntry { account: text("a"), amount: 1 });
    twice.total_delegation_amount = 2;
    assert!(!twice.is_well_formed());

    let mut short = fresh();
    short.delegations.entries.push(LedgerEntry { account: text("a"), amount: 3 });
    short.total_delegation_amount = 2;
    assert!(!short.is_well_formed());
    short.total_delegation_amount = 3;
    assert!(short.is_well_formed());

    let mut counter = fresh();
    counter.last_proposal_id = 1;
    assert!(!counter.is_well_formed());
    counter.proposals.push(Proposal::new(ProposalKind::Donate));
    assert!(counter.is_well_formed());
    counter.proposals[0].total_donations = 1;
    assert!(!counter.is_well_formed());

    let mut misplaced = fresh();
    misplaced.bounties.push(Bounty {
        id: 1,
        token: text("token.near"),
        title: text("t"),
        reward: 0,
        deadline: 0,
    });
    misplaced.last_bounty_id = 1;
    assert!(!misplaced.is_well_formed());
    misplaced.bounties[0].id = 0;
    assert!(misplaced.is_well_formed());
}

#[test]
fn storage_prefixes_differ() {
    assert_eq!(StorageKeys::Delegations.prefix(), 0);
    assert_eq!(StorageKeys::Proposals.prefix(), 1);
    assert_eq!(StorageKeys::Donations.prefix(), 2);
    assert_eq!(StorageKeys::Bounties.prefix(), 3);
}

#[test]
fn ledger_credits_accumulate_by_account() {
    let mut ledger = Ledger::new();
    assert_eq!(ledger.get(&text("a")), 0);
    assert!(ledger.credit(&text("a"), 5));
    assert!(ledger.credit(&text("b"), 0));
    assert!(ledger.credit(&text("a"), 6));
    assert_eq!(ledger.get(&text("a")), 11);
    assert_eq!(ledger.get(&text("b")), 0);
    assert_eq!(ledger.get(&text("c")), 0);
    assert_eq!(ledger.entries.len(), 2);
    assert_eq!(ledger.checked_total(), Some(11));
    assert!(ledger.is_well_formed());
}

#[test]
fn ledger_refuses_a_balance_that_does_not_fit() {
    let mut ledger = Ledger::new();
    assert!(ledger.credit(&text("a"), u128::MAX));
    let before = ledger.clone();
    assert!(!ledger.credit(&text("a"), 1));
    assert_eq!(ledger, before);
    assert!(ledger.credit(&text("b"), 1));
    assert_eq!(ledger.checked_total(), None);
}

#[test]
fn every_rejection_has_its_reason() {
    assert_eq!(DaoError::InvalidTransferArgs.message(), "Not valid DelegateArgs");
    assert_eq!(DaoError::InvalidTokenAccount.message(), "ERR_INVALID_TOKEN_ACCOUNT");
    assert_eq!(DaoError::ProposalIdNotProvided.message(), "PROPOSAL_ID_NOT_PROVIDED");
    assert_eq!(DaoError::NoProposal.message(), "ERR_NO_PROPOSAL");
    assert_eq!(DaoError::ProposalNotDonationKind.message(), "PROPOSAL_IS_NOT_DONATION_KIND");
    assert_eq!(DaoError::BountyInputNotFound.message(), "BOUNTY_INPUT_NOT_FOUND");
    assert_eq!(DaoError::NotAllowed.message(), "ERR_NOT_ALLOWED");
    assert_eq!(DaoError::ContractNotInitialized.message(), "ERR_CONTRACT_IS_NOT_INITIALIZED");
    assert_eq!(DaoError::Overflow.message(), "attempt to add with overflow");
}
