use proposal_ledger::ballot::vote_on_proposal;
use proposal_ledger::factory::create_proposal;
use proposal_ledger::identity::Identity;
use proposal_ledger::record::{ProposalAccount, VoteDirection};

fn holder(tag: u8) -> Identity {
    Identity::new([tag; 32])
}

fn polled(yes: u8, no: u8) -> ProposalAccount {
    let mut record =
        create_proposal(holder(255), String::from("t"), String::from("d"), holder(254), 100, 0)
            .unwrap();
    for tag in 0..yes {
        vote_on_proposal(&mut record, holder(tag), VoteDirection::Yes, 1).unwrap();
    }
    for tag in 0..no {
        vote_on_proposal(&mut record, holder(100 + tag), VoteDirection::No, 1).unwrap();
    }
    record
}

fn with_tallies(yes_votes: u32, no_votes: u32, unique_voters: u32) -> ProposalAccount {
    let mut record = polled(0, 0);
    record.yes_votes = yes_votes;
    record.no_votes = no_votes;
    record.unique_voters = unique_voters;
    record
}

#[test]
fn confidence_of_three_to_one_is_fifty() {
    assert_eq!(polled(3, 1).calculate_confidence(), 50);
    assert_eq!(polled(1, 3).calculate_confidence(), 50);
}

#[test]
fn confidence_before_the_first_ballot_is_nothing() {
    assert_eq!(polled(0, 0).calculate_confidence(), 0);
}

#[test]
fn confidence_is_rounded_down() {
    assert_eq!(polled(1, 2).calculate_confidence(), 33);
    assert_eq!(polled(2, 1).calculate_confidence(), 33);
    assert_eq!(polled(5, 2).calculate_confidence(), 42);
    assert_eq!(polled(4, 3).calculate_confidence(), 14);
}

#[test]
fn confidence_of_one_side_alone_is_one_hundred() {
    assert_eq!(polled(1, 0).calculate_confidence(), 100);
    assert_eq!(polled(0, 7).calculate_confidence(), 100);
}

#[test]
fn confidence_of_a_tie_is_nothing() {
    assert_eq!(polled(2, 2).calculate_confidence(), 0);
}

#[test]
fn confidence_without_voters_is_nothing() {
    assert_eq!(with_tallies(3, 1, 0).calculate_confidence(), 0);
}

#[test]
fn confidence_of_tallies_that_do_not_add_up_in_the_counter() {
    assert_eq!(with_tallies(u32::MAX, u32::MAX, 1).calculate_confidence(), 0);
    assert_eq!(with_tallies(u32::MAX, 0, 1).calculate_confidence(), 100);
    assert_eq!(with_tallies(u32::MAX, 1, 1).calculate_confidence(), 99);
    assert_eq!(with_tallies(1, u32::MAX, 1).calculate_confidence(), 99);
    assert_eq!(with_tallies(u32::MAX, u32::MAX / 2, 1).calculate_confidence(), 33);
}

#[test]
fn percentages_of_three_to_one() {
    let record = polled(3, 1);
    assert_eq!(record.yes_percentage(), 75);
    assert_eq!(record.no_percentage(), 25);
}

#[test]
fn percentages_before_the_first_ballot_are_nothing() {
    let record = polled(0, 0);
    assert_eq!(record.yes_percentage(), 0);
    assert_eq!(record.no_percentage(), 0);
}

#[test]
fn percentages_are_rounded_down() {
    let record = polled(1, 2);
    assert_eq!(record.yes_percentage(), 33);
    assert_eq!(record.no_percentage(), 66);
    let record = polled(2, 5);
    assert_eq!(record.yes_percentage(), 28);
    assert_eq!(record.no_percentage(), 71);
}

#[test]
fn percentages_of_one_side_alone() {
    let record = polled(4, 0);
    assert_eq!(record.yes_percentage(), 100);
    assert_eq!(record.no_percentage(), 0);
}

#[test]
fn percentages_of_tallies_that_do_not_add_up_in_the_counter() {
    let record = with_tallies(u32::MAX, u32::MAX, 2);
    assert_eq!(record.yes_percentage(), 50);
    assert_eq!(record.no_percentage(), 50);
    let record = with_tallies(u32::MAX, 1, 2);
    assert_eq!(record.yes_percentage(), 99);
    assert_eq!(record.no_percentage(), 0);
}

#[test]
fn percentages_do_not_ask_for_voters() {
    let record = with_tallies(1, 1, 0);
    assert_eq!(record.yes_percentage(), 50);
    assert_eq!(record.no_percentage(), 50);
}
