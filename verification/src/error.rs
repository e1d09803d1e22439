//! The named failures of the ledger.

use vstd::prelude::*;

verus! {

/// Every way in which an operation on a proposal can fail. An operation that
/// fails leaves the record as it found it.
#[derive(Clone, Copy, Debug, PartialEq, Eq, Structural)]
pub enum ProposalError {
    /// The title is longer than [`crate::record::MAX_TITLE_LEN`] bytes.
    TitleTooLong,
    /// The description is longer than [`crate::record::MAX_DESCRIPTION_LEN`] bytes.
    DescriptionTooLong,
    /// A vote was cast on a closed proposal.
    ProposalClosed,
    /// A vote was cast at or after the expiration time.
    ProposalExpired,
    /// The voter already holds a Yes ballot.
    AlreadyVotedYes,
    /// The voter already holds a No ballot.
    AlreadyVotedNo,
    /// The voter table is full.
    MaxVotersReached,
    /// The proposal was closed before.
    ProposalAlreadyClosed,
    /// Someone other than the author tried to close the proposal.
    Unauthorized,
    /// A counter would exceed its width.
    Overflow,
    /// A counter would fall below zero.
    Underflow,
}

impl ProposalError {
    /// The text that [`ProposalError::message`] returns.
    pub open spec fn message_text(self) -> Seq<char> {
        match self {
            ProposalError::TitleTooLong => "Title exceeds maximum length of 100 characters"@,
            ProposalError::DescriptionTooLong => "Description exceeds maximum length of 500 characters"@,
            ProposalError::ProposalClosed => "Proposal is already closed"@,
            ProposalError::ProposalExpired => "Proposal has expired"@,
            ProposalError::AlreadyVotedYes => "You have already voted YES"@,
            ProposalError::AlreadyVotedNo => "You have already voted NO"@,
            ProposalError::MaxVotersReached => "Maximum number of voters reached"@,
            ProposalError::ProposalAlreadyClosed => "Proposal has already been closed"@,
            ProposalError::Unauthorized => "Unauthorized - only author can close proposal"@,
            ProposalError::Overflow => "Arithmetic overflow occurred"@,
            ProposalError::Underflow => "Arithmetic underflow occurred"@,
        }
    }

    /// A sentence for the person who caused the failure.
    pub fn message(&self) -> (text: &'static str)
        ensures
            text@ == self.message_text(),
    {
        match self {
            ProposalError::TitleTooLong => "Title exceeds maximum length of 100 characters",
            ProposalError::DescriptionTooLong => "Description exceeds maximum length of 500 characters",
            ProposalError::ProposalClosed => "Proposal is already closed",
            ProposalError::ProposalExpired => "Proposal has expired",
            ProposalError::AlreadyVotedYes => "You have already voted YES",
            ProposalError::AlreadyVotedNo => "You have already voted NO",
            ProposalError::MaxVotersReached => "Maximum number of voters reached",
            ProposalError::ProposalAlreadyClosed => "Proposal has already been closed",
            ProposalError::Unauthorized => "Unauthorized - only author can close proposal",
            ProposalError::Overflow => "Arithmetic overflow occurred",
            ProposalError::Underflow => "Arithmetic underflow occurred",
        }
    }
}

} // verus!
