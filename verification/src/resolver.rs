//! The outcome resolver: the author closes a proposal, once.

use crate::error::ProposalError;
use crate::identity::Identity;
use crate::record::{majority, ProposalAccount, ProposalOutcome, ProposalView};
use vstd::prelude::*;

verus! {

/// What closing the record `p` on behalf of `caller` gives: the closed record
/// with the majority of its tallies as the outcome, or the reason for which
/// closing is refused. That the record is still open is tested before the
/// caller is held against the author. The expiration time plays no part.
pub open spec fn proposal_closed(p: ProposalView, caller: Identity) -> Result<
    ProposalView,
    ProposalError,
> {
    if p.closed {
        Err(ProposalError::ProposalAlreadyClosed)
    } else if caller != p.author {
        Err(ProposalError::Unauthorized)
    } else {
        Ok(
            ProposalView {
                closed: true,
                outcome: Some(majority(p.yes_votes, p.no_votes)),
                ..p
            },
        )
    }
}

/// Closes the proposal on behalf of `caller` and hands back the outcome.
///
/// The record becomes what [`proposal_closed`] says; or closing is refused
/// for the reason that [`proposal_closed`] gives, and the record stays as it
/// was.
pub fn close_proposal(proposal: &mut ProposalAccount, caller: Identity) -> (result: Result<
    ProposalOutcome,
    ProposalError,
>)
    ensures
        match proposal_closed(old(proposal)@, caller) {
            Ok(next) => final(proposal)@ == next && result == Ok::<ProposalOutcome, ProposalError>(
                majority(next.yes_votes, next.no_votes),
            ),
            Err(error) => *final(proposal) == *old(proposal) && result == Err::<
                ProposalOutcome,
                ProposalError,
            >(error),
        },
        old(proposal).well_formed() ==> final(proposal).well_formed(),
{
    if proposal.closed {
        return Err(ProposalError::ProposalAlreadyClosed);
    }
    if !caller.same_as(&proposal.author) {
        return Err(ProposalError::Unauthorized);
    }
    let outcome = if proposal.yes_votes > proposal.no_votes {
        ProposalOutcome::YesWins
    } else if proposal.no_votes > proposal.yes_votes {
        ProposalOutcome::NoWins
    } else {
        ProposalOutcome::Tied
    };
    proposal.closed = true;
    proposal.outcome = Some(outcome);
    Ok(outcome)
}

} // verus!
