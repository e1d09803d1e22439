use proposal_ledger::error::ProposalError;
use proposal_ledger::factory::create_proposal;
use proposal_ledger::identity::Identity;
use proposal_ledger::record::ProposalAccount;

fn party(tag: u8) -> Identity {
    Identity::new([tag; 32])
}

#[test]
fn new_proposal_starts_empty_and_open() {
    let record = create_proposal(
        party(1),
        String::from("Raise the cap"),
        String::from("Should the cap be raised?"),
        party(9),
        2_000,
        1_000,
    )
    .unwrap();
    assert_eq!(record.author, party(1));
    assert_eq!(record.title, "Raise the cap");
    assert_eq!(record.description, "Should the cap be raised?");
    assert_eq!(record.token_address, party(9));
    assert_eq!(record.created_at, 1_000);
    assert_eq!(record.expiration_time, 2_000);
    assert_eq!(record.yes_votes, 0);
    assert_eq!(record.no_votes, 0);
    assert_eq!(record.unique_voters, 0);
    assert!(record.voters.is_empty());
    assert!(!record.closed);
    assert_eq!(record.outcome, None);
}

#[test]
fn new_proposal_reserves_the_whole_voter_table() {
    let record =
        create_proposal(party(1), String::new(), String::new(), party(2), 10, 0).unwrap();
    assert!(record.voters.capacity() >= ProposalAccount::MAX_VOTERS);
}

#[test]
fn title_of_one_hundred_bytes_is_taken() {
    let title = "t".repeat(100);
    let record =
        create_proposal(party(1), title.clone(), String::new(), party(2), 10, 0).unwrap();
    assert_eq!(record.title, title);
}

#[test]
fn title_of_one_hundred_and_one_bytes_is_refused() {
    let result = create_proposal(party(1), "t".repeat(101), String::new(), party(2), 10, 0);
    assert_eq!(result, Err(ProposalError::TitleTooLong));
}

#[test]
fn title_is_measured_in_bytes() {
    // Fifty-one letters of two bytes each.
    let title = "\u{e9}".repeat(51);
    assert_eq!(title.chars().count(), 51);
    let result = create_proposal(party(1), title, String::new(), party(2), 10, 0);
    assert_eq!(result, Err(ProposalError::TitleTooLong));
    let shorter = "\u{e9}".repeat(50);
    assert!(create_proposal(party(1), shorter, String::new(), party(2), 10, 0).is_ok());
}

#[test]
fn description_of_five_hundred_bytes_is_taken() {
    let description = "d".repeat(500);
    let record =
        create_proposal(party(1), String::from("t"), description.clone(), party(2), 10, 0)
            .unwrap();
    assert_eq!(record.description, description);
}

#[test]
fn description_of_five_hundred_and_one_bytes_is_refused() {
    let result = create_proposal(party(1), String::from("t"), "d".repeat(501), party(2), 10, 0);
    assert_eq!(result, Err(ProposalError::DescriptionTooLong));
}

#[test]
fn title_is_measured_before_the_description() {
    let result = create_proposal(party(1), "t".repeat(101), "d".repeat(501), party(2), 10, 0);
    assert_eq!(result, Err(ProposalError::TitleTooLong));
}

#[test]
fn expiration_time_is_taken_as_it_comes() {
    // Nothing relates the expiration time to the time of creation.
    let record =
        create_proposal(party(1), String::new(), String::new(), party(2), -5, 1_000).unwrap();
    assert_eq!(record.expiration_time, -5);
    assert_eq!(record.created_at, 1_000);
}

#[test]
fn limits_of_the_record() {
    assert_eq!(ProposalAccount::MAX_VOTERS, 250);
    assert_eq!(ProposalAccount::MAX_TITLE_LEN, 100);
    assert_eq!(ProposalAccount::MAX_DESCRIPTION_LEN, 500);
    assert_eq!(ProposalAccount::INIT_SPACE, 9_207);
}

#[test]
fn identities_are_equal_when_their_bytes_are() {
    let mut bytes = [7u8; 32];
    let first = Identity::new(bytes);
    assert_eq!(first, Identity::new([7u8; 32]));
    assert!(first.same_as(&Identity::new([7u8; 32])));
    assert_eq!(first.to_bytes(), bytes);
    bytes[31] = 8;
    assert_ne!(first, Identity::new(bytes));
    assert!(!first.same_as(&Identity::new(bytes)));
    bytes[31] = 7;
    bytes[0] = 0;
    assert_ne!(first, Identity::new(bytes));
}

#[test]
fn every_error_has_its_message() {
    assert_eq!(
        ProposalError::TitleTooLong.message(),
        "Title exceeds maximum length of 100 characters"
    );
    assert_eq!(
        ProposalError::DescriptionTooLong.message(),
        "Description exceeds maximum length of 500 characters"
    );
    assert_eq!(ProposalError::ProposalClosed.message(), "Proposal is already closed");
    assert_eq!(ProposalError::ProposalExpired.message(), "Proposal has expired");
    assert_eq!(ProposalError::AlreadyVotedYes.message(), "You have already voted YES");
    assert_eq!(ProposalError::AlreadyVotedNo.message(), "You have already voted NO");
    assert_eq!(ProposalError::MaxVotersReached.message(), "Maximum number of voters reached");
    assert_eq!(
        ProposalError::ProposalAlreadyClosed.message(),
        "Proposal has already been closed"
    );
    assert_eq!(
        ProposalError::Unauthorized.message(),
        "Unauthorized - only author can close proposal"
    );
    assert_eq!(ProposalError::Overflow.message(), "Arithmetic overflow occurred");
    assert_eq!(ProposalError::Underflow.message(), "Arithmetic underflow occurred");
}
