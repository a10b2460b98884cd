use dao::governor::{check_proposal, window_fits, Governor};
use dao::types::{AccountId, DaoError, Proposal, ProposalVote, Transfer, VoteType, ONE_MINUTE};

fn account(byte: u8) -> AccountId {
    AccountId::new([byte; 32])
}

fn alice() -> AccountId {
    account(0x01)
}

fn bob() -> AccountId {
    account(0x02)
}

fn charlie() -> AccountId {
    account(0x03)
}

fn django() -> AccountId {
    account(0x04)
}

fn create_contract() -> Governor {
    Governor::new(account(0x01), 50)
}

#[test]
fn default_works() {
    let governor = create_contract();
    assert_eq!(governor.next_proposal_id(), 0);
    assert_eq!(governor.quorum(), 50);
    assert_eq!(governor.governance_token(), account(0x01));
    assert_eq!(governor.get_proposal(0), None);
    assert_eq!(governor.get_proposal(1), None);
    assert_eq!(governor.get_proposal_votes(1), None);
}

#[test]
fn propose_works() {
    let mut governor = create_contract();
    let now = 0;
    assert_eq!(
        governor.propose(django(), 0, 1, 1000, now),
        Err(DaoError::AmountShouldNotBeZero)
    );
    assert_eq!(
        governor.propose(django(), 100, 0, 1000, now),
        Err(DaoError::DurationError)
    );
    let result = governor.propose(django(), 100, 1, 1000, now);
    assert_eq!(result, Ok(1));
    let proposal = governor.get_proposal(1).unwrap();
    assert_eq!(
        proposal,
        Proposal {
            to: django(),
            amount: 100,
            vote_start: 0,
            vote_end: now + 1 * ONE_MINUTE,
            executed: false,
        }
    );
    assert_eq!(governor.next_proposal_id(), 1);
}

#[test]
fn quorum_not_reached() {
    let mut governor = create_contract();
    let result = governor.propose(account(0x02), 100, 1, 1000, 0);
    assert_eq!(result, Ok(1));
    assert_eq!(governor.next_proposal_id(), 1);
    let execute = governor.execute(1);
    assert_eq!(execute, Err(DaoError::QuorumNotReached));
}

#[test]
fn zero_amount_creates_no_proposal() {
    let mut governor = create_contract();
    assert_eq!(
        governor.propose(django(), 0, 0, 0, 7),
        Err(DaoError::AmountShouldNotBeZero)
    );
    assert_eq!(governor.next_proposal_id(), 0);
    assert_eq!(governor.get_proposal(1), None);
    assert_eq!(governor.get_proposal_votes(1), None);
}

#[test]
fn zero_duration_creates_no_proposal() {
    let mut governor = create_contract();
    assert_eq!(
        governor.propose(django(), 5, 0, 1, 7),
        Err(DaoError::DurationError)
    );
    assert_eq!(governor.next_proposal_id(), 0);
    assert_eq!(governor.get_proposal(1), None);
}

#[test]
fn amount_over_balance_is_refused() {
    let mut governor = create_contract();
    assert_eq!(
        governor.propose(django(), 1001, 1, 1000, 0),
        Err(DaoError::AmountExceedsBalance)
    );
    assert_eq!(governor.next_proposal_id(), 0);
    assert_eq!(governor.propose(django(), 1000, 1, 1000, 0), Ok(1));
}

#[test]
fn window_is_duration_in_minutes() {
    let mut governor = create_contract();
    assert_eq!(governor.propose(django(), 1, 3, 1, 1_000), Ok(1));
    let proposal = governor.get_proposal(1).unwrap();
    assert_eq!(proposal.vote_start, 1_000);
    assert_eq!(proposal.vote_end, 1_180);
    assert_eq!(proposal.vote_end - proposal.vote_start, 3 * 60);
    assert!(!proposal.executed);
    assert_eq!(
        governor.get_proposal_votes(1),
        Some(ProposalVote { for_votes: 0, against_votes: 0 })
    );
}

#[test]
fn window_may_end_at_the_last_timestamp() {
    let mut governor = create_contract();
    assert_eq!(governor.propose(django(), 1, 1, 1, u64::MAX - 60), Ok(1));
    assert_eq!(governor.get_proposal(1).unwrap().vote_end, u64::MAX);
}

#[test]
fn identifiers_count_up_from_one() {
    let mut governor = create_contract();
    assert_eq!(governor.propose(alice(), 10, 1, 1000, 0), Ok(1));
    assert_eq!(governor.propose(bob(), 20, 2, 1000, 5), Ok(2));
    assert_eq!(
        governor.propose(bob(), 0, 2, 1000, 5),
        Err(DaoError::AmountShouldNotBeZero)
    );
    assert_eq!(governor.propose(charlie(), 30, 3, 1000, 9), Ok(3));
    assert_eq!(governor.next_proposal_id(), 3);
    assert_eq!(governor.get_proposal(0), None);
    assert_eq!(governor.get_proposal(1).unwrap().to, alice());
    assert_eq!(governor.get_proposal(2).unwrap().amount, 20);
    assert_eq!(governor.get_proposal(3).unwrap().vote_end, 9 + 180);
    assert_eq!(governor.get_proposal(4), None);
}

#[test]
fn vote_on_unknown_proposal() {
    let mut governor = create_contract();
    assert_eq!(
        governor.vote(1, VoteType::For, alice(), 0, 10, 100),
        Err(DaoError::ProposalNotFound)
    );
    assert_eq!(governor.propose(django(), 100, 1, 1000, 0), Ok(1));
    assert_eq!(
        governor.vote(0, VoteType::For, alice(), 0, 10, 100),
        Err(DaoError::ProposalNotFound)
    );
    assert_eq!(
        governor.vote(2, VoteType::For, alice(), 0, 10, 100),
        Err(DaoError::ProposalNotFound)
    );
    assert_eq!(
        governor.check_vote(2, &alice(), 0),
        Err(DaoError::ProposalNotFound)
    );
}

#[test]
fn vote_adds_weight_to_its_side() {
    let mut governor = create_contract();
    assert_eq!(governor.propose(django(), 100, 1, 1000, 0), Ok(1));
    assert_eq!(governor.check_vote(1, &alice(), 10), Ok(()));
    assert_eq!(governor.vote(1, VoteType::For, alice(), 10, 250, 1000), Ok(()));
    assert_eq!(
        governor.get_proposal_votes(1),
        Some(ProposalVote { for_votes: 25, against_votes: 0 })
    );
    assert_eq!(governor.vote(1, VoteType::Against, bob(), 20, 1, 3), Ok(()));
    assert_eq!(
        governor.get_proposal_votes(1),
        Some(ProposalVote { for_votes: 25, against_votes: 33 })
    );
    assert_eq!(governor.vote(1, VoteType::For, charlie(), 30, 7, 1000), Ok(()));
    assert_eq!(
        governor.get_proposal_votes(1),
        Some(ProposalVote { for_votes: 25, against_votes: 33 })
    );
}

#[test]
fn second_vote_is_refused_and_counts_nothing() {
    let mut governor = create_contract();
    assert_eq!(governor.propose(django(), 100, 1, 1000, 0), Ok(1));
    assert_eq!(governor.vote(1, VoteType::For, alice(), 5, 600, 1000), Ok(()));
    let tally = governor.get_proposal_votes(1);
    assert_eq!(
        governor.vote(1, VoteType::For, alice(), 6, 600, 1000),
        Err(DaoError::AlreadyVoted)
    );
    assert_eq!(
        governor.vote(1, VoteType::Against, alice(), 60, 1000, 1000),
        Err(DaoError::AlreadyVoted)
    );
    assert_eq!(governor.check_vote(1, &alice(), 6), Err(DaoError::AlreadyVoted));
    assert_eq!(governor.get_proposal_votes(1), tally);
    assert_eq!(
        tally,
        Some(ProposalVote { for_votes: 60, against_votes: 0 })
    );
}

#[test]
fn one_account_votes_on_each_proposal() {
    let mut governor = create_contract();
    assert_eq!(governor.propose(django(), 100, 1, 1000, 0), Ok(1));
    assert_eq!(governor.propose(django(), 100, 1, 1000, 0), Ok(2));
    assert_eq!(governor.vote(1, VoteType::For, alice(), 5, 600, 1000), Ok(()));
    assert_eq!(governor.vote(2, VoteType::Against, alice(), 5, 600, 1000), Ok(()));
    assert_eq!(
        governor.get_proposal_votes(1),
        Some(ProposalVote { for_votes: 60, against_votes: 0 })
    );
    assert_eq!(
        governor.get_proposal_votes(2),
        Some(ProposalVote { for_votes: 0, against_votes: 60 })
    );
}

#[test]
fn window_includes_its_end() {
    let mut governor = create_contract();
    assert_eq!(governor.propose(django(), 100, 1, 1000, 100), Ok(1));
    assert_eq!(governor.vote(1, VoteType::For, alice(), 160, 500, 1000), Ok(()));
    assert_eq!(
        governor.vote(1, VoteType::For, bob(), 161, 500, 1000),
        Err(DaoError::VotePeriodEnded)
    );
    assert_eq!(
        governor.check_vote(1, &bob(), u64::MAX),
        Err(DaoError::VotePeriodEnded)
    );
    assert_eq!(
        governor.get_proposal_votes(1),
        Some(ProposalVote { for_votes: 50, against_votes: 0 })
    );
}

#[test]
fn period_is_looked_at_before_the_ballot() {
    let mut governor = create_contract();
    assert_eq!(governor.propose(django(), 100, 1, 1000, 0), Ok(1));
    assert_eq!(governor.vote(1, VoteType::For, alice(), 60, 500, 1000), Ok(()));
    assert_eq!(
        governor.vote(1, VoteType::For, alice(), 61, 500, 1000),
        Err(DaoError::VotePeriodEnded)
    );
}

#[test]
fn nothing_in_supply_weighs_nothing() {
    let mut governor = create_contract();
    assert_eq!(governor.propose(django(), 100, 1, 1000, 0), Ok(1));
    assert_eq!(governor.vote(1, VoteType::For, alice(), 0, 0, 0), Ok(()));
    assert_eq!(governor.vote(1, VoteType::Against, bob(), 0, 12, 0), Ok(()));
    assert_eq!(
        governor.get_proposal_votes(1),
        Some(ProposalVote { for_votes: 0, against_votes: 0 })
    );
    assert_eq!(
        governor.vote(1, VoteType::For, alice(), 0, 0, 0),
        Err(DaoError::AlreadyVoted)
    );
}

#[test]
fn execute_unknown_proposal() {
    let mut governor = create_contract();
    assert_eq!(governor.execute(0), Err(DaoError::ProposalNotFound));
    assert_eq!(governor.execute(1), Err(DaoError::ProposalNotFound));
    assert_eq!(governor.propose(django(), 100, 1, 1000, 0), Ok(1));
    assert_eq!(governor.execute(2), Err(DaoError::ProposalNotFound));
}

#[test]
fn below_quorum_whatever_the_split() {
    let mut governor = create_contract();
    assert_eq!(governor.propose(django(), 100, 1, 1000, 0), Ok(1));
    assert_eq!(governor.vote(1, VoteType::For, alice(), 0, 490, 1000), Ok(()));
    assert_eq!(governor.execute(1), Err(DaoError::QuorumNotReached));
    assert_eq!(governor.propose(django(), 100, 1, 1000, 0), Ok(2));
    assert_eq!(governor.vote(2, VoteType::Against, alice(), 0, 490, 1000), Ok(()));
    assert_eq!(governor.execute(2), Err(DaoError::QuorumNotReached));
    assert_eq!(governor.propose(django(), 100, 1, 1000, 0), Ok(3));
    assert_eq!(governor.vote(3, VoteType::For, alice(), 0, 300, 1000), Ok(()));
    assert_eq!(governor.vote(3, VoteType::Against, bob(), 0, 190, 1000), Ok(()));
    assert_eq!(governor.execute(3), Err(DaoError::QuorumNotReached));
    assert!(!governor.get_proposal(3).unwrap().executed);
}

#[test]
fn quorum_is_reached_at_its_value() {
    let mut governor = create_contract();
    assert_eq!(governor.propose(django(), 100, 1, 1000, 0), Ok(1));
    assert_eq!(governor.vote(1, VoteType::For, alice(), 0, 500, 1000), Ok(()));
    assert_eq!(
        governor.execute(1),
        Ok(Transfer { to: django(), amount: 100 })
    );
}

#[test]
fn tie_is_not_accepted() {
    let mut governor = create_contract();
    assert_eq!(governor.propose(django(), 100, 1, 1000, 0), Ok(1));
    assert_eq!(governor.vote(1, VoteType::For, alice(), 0, 400, 1000), Ok(()));
    assert_eq!(governor.vote(1, VoteType::Against, bob(), 0, 400, 1000), Ok(()));
    assert_eq!(governor.execute(1), Err(DaoError::ProposalNotAccepted));
    assert!(!governor.get_proposal(1).unwrap().executed);
}

#[test]
fn majority_against_is_not_accepted() {
    let mut governor = create_contract();
    assert_eq!(governor.propose(django(), 100, 1, 1000, 0), Ok(1));
    assert_eq!(governor.vote(1, VoteType::For, alice(), 0, 300, 1000), Ok(()));
    assert_eq!(governor.vote(1, VoteType::Against, bob(), 0, 700, 1000), Ok(()));
    assert_eq!(governor.execute(1), Err(DaoError::ProposalNotAccepted));
}

#[test]
fn zero_quorum_still_needs_a_majority() {
    let mut governor = Governor::new(alice(), 0);
    assert_eq!(governor.propose(django(), 100, 1, 1000, 0), Ok(1));
    assert_eq!(governor.execute(1), Err(DaoError::ProposalNotAccepted));
    assert_eq!(governor.vote(1, VoteType::For, alice(), 0, 10, 1000), Ok(()));
    assert_eq!(
        governor.execute(1),
        Ok(Transfer { to: django(), amount: 100 })
    );
}

#[test]
fn accepted_proposal_pays_its_recipient() {
    let mut governor = Governor::new(account(0x09), 50);
    assert_eq!(governor.propose(django(), 100, 1, 1000, 0), Ok(1));
    assert_eq!(governor.vote(1, VoteType::For, alice(), 10, 600, 1000), Ok(()));
    assert_eq!(governor.vote(1, VoteType::Against, bob(), 20, 500, 1000), Ok(()));
    assert_eq!(
        governor.get_proposal_votes(1),
        Some(ProposalVote { for_votes: 60, against_votes: 50 })
    );
    let transfer = governor.execute(1).unwrap();
    assert_eq!(transfer, Transfer { to: django(), amount: 100 });
    assert_eq!(transfer.conclude(true), Ok(()));
    assert!(governor.get_proposal(1).unwrap().executed);
}

#[test]
fn immediate_execution_lacks_quorum() {
    let mut governor = create_contract();
    assert_eq!(governor.propose(django(), 100, 1, 1000, 0), Ok(1));
    assert_eq!(governor.execute(1), Err(DaoError::QuorumNotReached));
    assert!(!governor.get_proposal(1).unwrap().executed);
}

#[test]
fn execution_does_not_wait_for_the_window() {
    let mut governor = create_contract();
    assert_eq!(governor.propose(django(), 100, 10, 1000, 0), Ok(1));
    assert_eq!(governor.vote(1, VoteType::For, alice(), 1, 900, 1000), Ok(()));
    assert_eq!(
        governor.execute(1),
        Ok(Transfer { to: django(), amount: 100 })
    );
}

#[test]
fn second_execution_is_refused() {
    let mut governor = create_contract();
    assert_eq!(governor.propose(django(), 100, 1, 1000, 0), Ok(1));
    assert_eq!(governor.vote(1, VoteType::For, alice(), 1, 900, 1000), Ok(()));
    assert!(governor.execute(1).is_ok());
    assert_eq!(governor.execute(1), Err(DaoError::ProposalAlreadyExecuted));
    assert_eq!(
        governor.vote(1, VoteType::For, bob(), 1, 100, 1000),
        Err(DaoError::ProposalAlreadyExecuted)
    );
    assert_eq!(
        governor.vote(1, VoteType::For, bob(), 1_000, 100, 1000),
        Err(DaoError::ProposalAlreadyExecuted)
    );
    assert_eq!(
        governor.get_proposal_votes(1),
        Some(ProposalVote { for_votes: 90, against_votes: 0 })
    );
}

#[test]
fn failed_payment_is_reported_and_not_retried() {
    let mut governor = create_contract();
    assert_eq!(governor.propose(django(), 100, 1, 1000, 0), Ok(1));
    assert_eq!(governor.vote(1, VoteType::For, alice(), 1, 900, 1000), Ok(()));
    let transfer = governor.execute(1).unwrap();
    assert_eq!(transfer.conclude(false), Err(DaoError::FailedTransfer));
    assert!(governor.get_proposal(1).unwrap().executed);
    assert_eq!(governor.execute(1), Err(DaoError::ProposalAlreadyExecuted));
}

#[test]
fn proposal_is_checked_in_order() {
    assert_eq!(check_proposal(0, 0, 0), Err(DaoError::AmountShouldNotBeZero));
    assert_eq!(check_proposal(0, 1, 1000), Err(DaoError::AmountShouldNotBeZero));
    assert_eq!(check_proposal(2000, 0, 1000), Err(DaoError::DurationError));
    assert_eq!(check_proposal(1001, 1, 1000), Err(DaoError::AmountExceedsBalance));
    assert_eq!(check_proposal(1000, 1, 1000), Ok(()));
    assert_eq!(check_proposal(1, u64::MAX, u128::MAX), Ok(()));
}

#[test]
fn window_fits_up_to_the_last_timestamp() {
    assert!(window_fits(0, 1));
    assert!(window_fits(0, 0));
    assert!(window_fits(u64::MAX, 0));
    assert!(!window_fits(u64::MAX, 1));
    assert!(window_fits(u64::MAX - 60, 1));
    assert!(!window_fits(u64::MAX - 59, 1));
    assert!(window_fits(15, u64::MAX / 60));
    assert!(!window_fits(16, u64::MAX / 60));
    assert!(!window_fits(0, u64::MAX / 60 + 1));
    assert!(!window_fits(0, u64::MAX));
}

#[test]
fn balance_above_the_supply_weighs_its_share() {
    let mut governor = create_contract();
    assert_eq!(governor.propose(django(), 100, 1, 1000, 0), Ok(1));
    assert!(governor.vote_fits(1, 2000, 1000));
    assert_eq!(governor.vote(1, VoteType::For, alice(), 0, 2000, 1000), Ok(()));
    assert_eq!(
        governor.get_proposal_votes(1),
        Some(ProposalVote { for_votes: 200, against_votes: 0 })
    );
    assert_eq!(governor.vote(1, VoteType::Against, bob(), 0, 7, 2), Ok(()));
    assert_eq!(
        governor.get_proposal_votes(1),
        Some(ProposalVote { for_votes: 200, against_votes: 350 })
    );
}

#[test]
fn refused_vote_does_not_look_at_the_balances() {
    let mut governor = create_contract();
    assert_eq!(
        governor.vote(1, VoteType::For, alice(), 0, u128::MAX, 1),
        Err(DaoError::ProposalNotFound)
    );
    assert_eq!(governor.propose(django(), 100, 1, 1000, 0), Ok(1));
    assert_eq!(governor.vote(1, VoteType::For, alice(), 5, 2000, 1000), Ok(()));
    let tally = governor.get_proposal_votes(1);
    assert_eq!(
        governor.vote(1, VoteType::Against, alice(), 6, 2000, 1000),
        Err(DaoError::AlreadyVoted)
    );
    assert_eq!(
        governor.vote(1, VoteType::Against, alice(), 6, u128::MAX, 1),
        Err(DaoError::AlreadyVoted)
    );
    assert_eq!(
        governor.vote(1, VoteType::For, bob(), 61, u128::MAX, 1),
        Err(DaoError::VotePeriodEnded)
    );
    assert_eq!(governor.get_proposal_votes(1), tally);
    assert_eq!(
        governor.execute(1),
        Ok(Transfer { to: django(), amount: 100 })
    );
    assert_eq!(
        governor.vote(1, VoteType::For, bob(), 7, u128::MAX, 1),
        Err(DaoError::ProposalAlreadyExecuted)
    );
    assert_eq!(governor.get_proposal_votes(1), tally);
}

#[test]
fn tally_takes_what_fits() {
    let mut governor = create_contract();
    assert_eq!(governor.propose(django(), 100, 1, 1000, 0), Ok(1));
    assert!(governor.vote_fits(1, 0, 0));
    assert!(governor.vote_fits(1, u128::MAX, 100));
    assert!(!governor.vote_fits(1, u128::MAX, 99));
    assert!(!governor.vote_fits(1, u128::MAX, 1));
    assert!(governor.vote_fits(2, u128::MAX, 1));
    assert_eq!(
        governor.vote(1, VoteType::Against, alice(), 0, u128::MAX - 1, 100),
        Ok(())
    );
    assert_eq!(
        governor.get_proposal_votes(1),
        Some(ProposalVote { for_votes: 0, against_votes: u128::MAX - 1 })
    );
    assert!(governor.vote_fits(1, 1, 100));
    assert!(governor.vote_fits(1, 199, 10_000));
    assert!(!governor.vote_fits(1, 200, 10_000));
    assert!(!governor.vote_fits(1, 2, 100));
    assert_eq!(governor.vote(1, VoteType::For, bob(), 0, 1, 100), Ok(()));
    assert_eq!(
        governor.get_proposal_votes(1),
        Some(ProposalVote { for_votes: 1, against_votes: u128::MAX - 1 })
    );
    assert!(governor.vote_fits(1, 0, 100));
    assert!(!governor.vote_fits(1, 1, 100));
    assert_eq!(governor.execute(1), Err(DaoError::ProposalNotAccepted));
}
