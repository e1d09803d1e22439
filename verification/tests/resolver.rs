use proposal_ledger::ballot::vote_on_proposal;
use proposal_ledger::error::ProposalError;
use proposal_ledger::factory::create_proposal;
use proposal_ledger::identity::Identity;
use proposal_ledger::record::{ProposalAccount, ProposalOutcome, VoteDirection};
use proposal_ledger::resolver::close_proposal;

fn member(tag: u8) -> Identity {
    Identity::new([tag; 32])
}

const WRITER: u8 = 200;

/// An open proposal of `WRITER` with the given numbers of Yes and No ballots.
fn proposal_with(yes: u8, no: u8) -> ProposalAccount {
    let mut record = create_proposal(
        member(WRITER),
        String::from("title"),
        String::from("description"),
        member(201),
        100,
        0,
    )
    .unwrap();
    for tag in 0..yes {
        vote_on_proposal(&mut record, member(tag), VoteDirection::Yes, 1).unwrap();
    }
    for tag in 0..no {
        vote_on_proposal(&mut record, member(100 + tag), VoteDirection::No, 1).unwrap();
    }
    record
}

#[test]
fn three_to_one_is_won_by_yes() {
    let mut record = proposal_with(3, 1);
    assert_eq!(close_proposal(&mut record, member(WRITER)), Ok(ProposalOutcome::YesWins));
    assert!(record.closed);
    assert_eq!(record.outcome, Some(ProposalOutcome::YesWins));
    assert_eq!((record.yes_votes, record.no_votes, record.unique_voters), (3, 1, 4));
}

#[test]
fn one_to_three_is_won_by_no() {
    let mut record = proposal_with(1, 3);
    assert_eq!(close_proposal(&mut record, member(WRITER)), Ok(ProposalOutcome::NoWins));
    assert_eq!(record.outcome, Some(ProposalOutcome::NoWins));
}

#[test]
fn two_to_two_is_tied() {
    let mut record = proposal_with(2, 2);
    assert_eq!(close_proposal(&mut record, member(WRITER)), Ok(ProposalOutcome::Tied));
    assert_eq!(record.outcome, Some(ProposalOutcome::Tied));
}

#[test]
fn nothing_to_nothing_is_tied() {
    let mut record = proposal_with(0, 0);
    assert_eq!(close_proposal(&mut record, member(WRITER)), Ok(ProposalOutcome::Tied));
    assert!(record.closed);
    assert_eq!(record.outcome, Some(ProposalOutcome::Tied));
}

#[test]
fn closing_changes_only_the_flag_and_the_outcome() {
    let mut record = proposal_with(2, 1);
    let before = record.clone();
    close_proposal(&mut record, member(WRITER)).unwrap();
    let mut expected = before;
    expected.closed = true;
    expected.outcome = Some(ProposalOutcome::YesWins);
    assert_eq!(record, expected);
}

#[test]
fn closing_twice_is_refused() {
    let mut record = proposal_with(3, 1);
    close_proposal(&mut record, member(WRITER)).unwrap();
    let before = record.clone();
    assert_eq!(
        close_proposal(&mut record, member(WRITER)),
        Err(ProposalError::ProposalAlreadyClosed)
    );
    assert_eq!(record, before);
    assert_eq!(record.outcome, Some(ProposalOutcome::YesWins));
}

#[test]
fn closed_is_tested_before_the_caller() {
    let mut record = proposal_with(0, 1);
    close_proposal(&mut record, member(WRITER)).unwrap();
    assert_eq!(
        close_proposal(&mut record, member(1)),
        Err(ProposalError::ProposalAlreadyClosed)
    );
    assert_eq!(record.outcome, Some(ProposalOutcome::NoWins));
}

#[test]
fn only_the_author_closes() {
    let mut record = proposal_with(3, 1);
    let before = record.clone();
    assert_eq!(close_proposal(&mut record, member(0)), Err(ProposalError::Unauthorized));
    assert_eq!(close_proposal(&mut record, member(201)), Err(ProposalError::Unauthorized));
    assert_eq!(record, before);
    assert!(!record.closed);
    assert_eq!(record.outcome, None);
    // The record is still open to ballots and to its author.
    vote_on_proposal(&mut record, member(50), VoteDirection::No, 1).unwrap();
    assert_eq!(close_proposal(&mut record, member(WRITER)), Ok(ProposalOutcome::YesWins));
}

#[test]
fn author_closes_before_and_after_the_expiration_time() {
    // Closing does not look at the clock: an expired proposal stays open,
    // without an outcome, until its author closes it.
    let mut record = proposal_with(1, 2);
    assert_eq!(
        vote_on_proposal(&mut record, member(90), VoteDirection::Yes, 100),
        Err(ProposalError::ProposalExpired)
    );
    assert!(!record.closed);
    assert_eq!(record.outcome, None);
    assert_eq!(close_proposal(&mut record, member(WRITER)), Ok(ProposalOutcome::NoWins));
}

#[test]
fn outcome_goes_by_the_tallies_alone() {
    let mut record = proposal_with(0, 0);
    record.yes_votes = u32::MAX;
    record.no_votes = u32::MAX - 1;
    assert_eq!(close_proposal(&mut record, member(WRITER)), Ok(ProposalOutcome::YesWins));
    let mut record = proposal_with(0, 0);
    record.yes_votes = u32::MAX;
    record.no_votes = u32::MAX;
    assert_eq!(close_proposal(&mut record, member(WRITER)), Ok(ProposalOutcome::Tied));
}
