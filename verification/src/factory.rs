//! The proposal factory: a new record from what its author hands in.

use crate::error::ProposalError;
use crate::identity::Identity;
use crate::record::{byte_len, ProposalAccount, ProposalView, VoterRecord};
use vstd::prelude::*;

verus! {

/// What opening a proposal gives: the fresh record, or the reason for which
/// the texts are refused. The title is measured first. The expiration time is
/// taken as it comes; nothing relates it to `now`.
pub open spec fn proposal_opened(
    author: Identity,
    title: Seq<char>,
    description: Seq<char>,
    token_address: Identity,
    expiration_time: int,
    now: int,
) -> Result<ProposalView, ProposalError> {
    if byte_len(title) > ProposalAccount::MAX_TITLE_LEN {
        Err(ProposalError::TitleTooLong)
    } else if byte_len(description) > ProposalAccount::MAX_DESCRIPTION_LEN {
        Err(ProposalError::DescriptionTooLong)
    } else {
        Ok(ProposalView::opened(author, title, description, token_address, now, expiration_time))
    }
}

/// Opens a proposal of `author` about `token_address` at time `now`.
///
/// The record has no ballots, is open and has no outcome; the room for a full
/// voter table is reserved with it. A title of more than
/// [`ProposalAccount::MAX_TITLE_LEN`] bytes or a description of more than
/// [`ProposalAccount::MAX_DESCRIPTION_LEN`] bytes is refused.
pub fn create_proposal(
    author: Identity,
    title: String,
    description: String,
    token_address: Identity,
    expiration_time: i64,
    now: i64,
) -> (result: Result<ProposalAccount, ProposalError>)
    ensures
        match proposal_opened(
            author,
            title@,
            description@,
            token_address,
            expiration_time as int,
            now as int,
        ) {
            Ok(record) => result is Ok && result.unwrap()@ == record && result.unwrap().well_formed(),
            Err(error) => result is Err && result.unwrap_err() == error,
        },
{
    if title.as_str().as_bytes().len() > ProposalAccount::MAX_TITLE_LEN {
        return Err(ProposalError::TitleTooLong);
    }
    if description.as_str().as_bytes().len() > ProposalAccount::MAX_DESCRIPTION_LEN {
        return Err(ProposalError::DescriptionTooLong);
    }
    let voters: Vec<VoterRecord> = Vec::with_capacity(ProposalAccount::MAX_VOTERS);
    Ok(
        ProposalAccount {
            author,
            title,
            description,
            token_address,
            created_at: now,
            expiration_time,
            yes_votes: 0,
            no_votes: 0,
            unique_voters: 0,
            voters,
            closed: false,
            outcome: None,
        },
    )
}

} // verus!
