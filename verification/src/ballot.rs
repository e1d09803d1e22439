//! The ballot engine: one voter's ballot, applied to a proposal.
//!
//! A voter holds at most one ballot. The first ballot adds an entry to the
//! voter table; a later ballot for the other side moves the voter's ballot
//! across; a later ballot for the same side is refused.

use crate::error::ProposalError;
use crate::identity::Identity;
use crate::record::{
    lemma_ballot_is_counted, lemma_ballots_after_push, lemma_ballots_after_update,
    lemma_ballots_within_len, ProposalAccount, ProposalView, VoteDirection, VoterRecord,
};
use vstd::prelude::*;

verus! {

/// What a voter learns from a ballot that was taken: the tallies as they now
/// stand, and the confidence index that they give.
#[derive(Clone, Copy, Debug, PartialEq, Eq, Structural)]
pub struct Tally {
    pub yes_votes: u32,
    pub no_votes: u32,
    pub unique_voters: u32,
    pub confidence: u32,
}

impl ProposalView {
    /// The record with the tally of `direction` set to `votes`.
    pub open spec fn with_tally(self, direction: VoteDirection, votes: nat) -> ProposalView {
        match direction {
            VoteDirection::Yes => ProposalView { yes_votes: votes, ..self },
            VoteDirection::No => ProposalView { no_votes: votes, ..self },
        }
    }
}

/// Whether entry `i` is the first of `voters` that bears `voter`.
pub open spec fn is_first_entry(voters: Seq<VoterRecord>, voter: Identity, i: int) -> bool {
    &&& 0 <= i < voters.len()
    &&& voters[i].voter == voter
    &&& forall|j: int| 0 <= j < i ==> (#[trigger] voters[j]).voter != voter
}

/// Where a scan of `voters` for `voter` stops: at the first entry that bears
/// the identity, if there is one.
pub open spec fn entry_of(voters: Seq<VoterRecord>, voter: Identity) -> Option<int> {
    if exists|i: int| is_first_entry(voters, voter, i) {
        Some(choose|i: int| is_first_entry(voters, voter, i))
    } else {
        None
    }
}

/// The refusal of a second ballot for the side that the voter already holds.
pub open spec fn already_voted(direction: VoteDirection) -> ProposalError {
    match direction {
        VoteDirection::Yes => ProposalError::AlreadyVotedYes,
        VoteDirection::No => ProposalError::AlreadyVotedNo,
    }
}

/// The first ballot of a voter who has no entry yet: refused where the table
/// is full or a counter is at its end, else taken as a new last entry.
pub open spec fn first_ballot(p: ProposalView, voter: Identity, direction: VoteDirection) -> Result<
    ProposalView,
    ProposalError,
> {
    if p.voters.len() >= ProposalAccount::MAX_VOTERS {
        Err(ProposalError::MaxVotersReached)
    } else if p.unique_voters + 1 > u32::MAX || p.tally(direction) + 1 > u32::MAX {
        Err(ProposalError::Overflow)
    } else {
        Ok(
            ProposalView {
                voters: p.voters.push(VoterRecord::casting(voter, direction)),
                unique_voters: p.unique_voters + 1,
                ..p.with_tally(direction, p.tally(direction) + 1)
            },
        )
    }
}

/// A ballot of the voter whose entry is at `i`: refused where the entry
/// already holds a ballot for `direction`; else the entry's ballot goes to
/// `direction`, and with it one count from the other side where the entry
/// held a ballot there.
pub open spec fn later_ballot(p: ProposalView, i: int, direction: VoteDirection) -> Result<
    ProposalView,
    ProposalError,
> {
    let entry = p.voters[i];
    let other = direction.opposite();
    let voters = p.voters.update(i, VoterRecord::casting(entry.voter, direction));
    if entry.holds(direction) {
        Err(already_voted(direction))
    } else if entry.holds(other) && p.tally(other) == 0 {
        Err(ProposalError::Underflow)
    } else if p.tally(direction) + 1 > u32::MAX {
        Err(ProposalError::Overflow)
    } else if entry.holds(other) {
        Ok(
            ProposalView { voters, ..p.with_tally(other, (p.tally(other) - 1) as nat).with_tally(
                direction,
                p.tally(direction) + 1,
            ) },
        )
    } else {
        Ok(ProposalView { voters, ..p.with_tally(direction, p.tally(direction) + 1) })
    }
}

/// What a ballot of `voter` for `direction` at time `now` does to the record
/// `p`: the record that follows, or the reason for which the ballot is
/// refused. A closed proposal takes no ballot, nor does one whose expiration
/// time has come; these two are tested first, in this order.
pub open spec fn ballot_cast(
    p: ProposalView,
    voter: Identity,
    direction: VoteDirection,
    now: int,
) -> Result<ProposalView, ProposalError> {
    if p.closed {
        Err(ProposalError::ProposalClosed)
    } else if now >= p.expiration_time {
        Err(ProposalError::ProposalExpired)
    } else {
        match entry_of(p.voters, voter) {
            None => first_ballot(p, voter, direction),
            Some(i) => later_ballot(p, i, direction),
        }
    }
}

/// The tallies of `p` and their confidence index.
pub open spec fn tally_of(p: ProposalView) -> Tally {
    Tally {
        yes_votes: p.yes_votes as u32,
        no_votes: p.no_votes as u32,
        unique_voters: p.unique_voters as u32,
        confidence: p.confidence() as u32,
    }
}

/// A first entry is the only first entry.
pub proof fn lemma_first_entry_is_entry_of(voters: Seq<VoterRecord>, voter: Identity, i: int)
    requires
        is_first_entry(voters, voter, i),
    ensures
        entry_of(voters, voter) == Some(i),
{
    let k = choose|k: int| is_first_entry(voters, voter, k);
    assert(is_first_entry(voters, voter, k));
    if k < i {
        assert(voters[k].voter != voter);
    } else if i < k {
        assert(voters[i].voter != voter);
    }
}

/// Before an entry that bears `voter` there is a first one.
proof fn lemma_some_entry_is_first(voters: Seq<VoterRecord>, voter: Identity, k: int)
    requires
        0 <= k < voters.len(),
        voters[k].voter == voter,
    ensures
        exists|i: int| is_first_entry(voters, voter, i),
    decreases k,
{
    if exists|j: int| 0 <= j < k && (#[trigger] voters[j]).voter == voter {
        let j = choose|j: int| 0 <= j < k && (#[trigger] voters[j]).voter == voter;
        lemma_some_entry_is_first(voters, voter, j);
    } else {
        assert(is_first_entry(voters, voter, k));
    }
}

/// What [`entry_of`] finds: the first entry that bears `voter`, or that no
/// entry does.
pub proof fn lemma_entry_of(voters: Seq<VoterRecord>, voter: Identity)
    ensures
        match entry_of(voters, voter) {
            Some(i) => is_first_entry(voters, voter, i),
            None => forall|j: int| 0 <= j < voters.len() ==> (#[trigger] voters[j]).voter != voter,
        },
{
    if entry_of(voters, voter) is None {
        assert forall|j: int| 0 <= j < voters.len() implies (#[trigger] voters[j]).voter
            != voter by {
            if voters[j].voter == voter {
                lemma_some_entry_is_first(voters, voter, j);
            }
        }
    }
}

/// A ballot on a well-formed record leaves a well-formed record, and is
/// never refused for a counter that ran over or under.
pub proof fn lemma_ballot_keeps_well_formed(
    p: ProposalView,
    voter: Identity,
    direction: VoteDirection,
    now: int,
)
    requires
        p.well_formed(),
    ensures
        match ballot_cast(p, voter, direction, now) {
            Ok(next) => next.well_formed(),
            Err(error) => error != ProposalError::Overflow && error != ProposalError::Underflow,
        },
{
    let other = direction.opposite();
    lemma_entry_of(p.voters, voter);
    lemma_ballots_within_len(p.voters, direction);
    lemma_ballots_within_len(p.voters, other);
    if !p.closed && now < p.expiration_time {
        match entry_of(p.voters, voter) {
            None => {
                let entry = VoterRecord::casting(voter, direction);
                lemma_ballots_after_push(p.voters, entry, direction);
                lemma_ballots_after_push(p.voters, entry, other);
            },
            Some(i) => {
                let entry = VoterRecord::casting(p.voters[i].voter, direction);
                lemma_ballots_after_update(p.voters, i, entry, direction);
                lemma_ballots_after_update(p.voters, i, entry, other);
                if p.voters[i].holds(other) {
                    lemma_ballot_is_counted(p.voters, other, i);
                }
            },
        }
    }
}

/// The place of the first entry of `voters` that bears `voter`.
fn find_voter(voters: &Vec<VoterRecord>, voter: &Identity) -> (found: Option<usize>)
    ensures
        match found {
            Some(i) => entry_of(voters@, *voter) == Some(i as int),
            None => entry_of(voters@, *voter) is None,
        },
{
    let mut i: usize = 0;
    while i < voters.len()
        invariant
            i <= voters.len(),
            forall|j: int| 0 <= j < i ==> (#[trigger] voters@[j]).voter != *voter,
        decreases voters.len() - i,
    {
        if voters[i].voter.same_as(voter) {
            proof {
                lemma_first_entry_is_entry_of(voters@, *voter, i as int);
            }
            return Some(i);
        }
        i = i + 1;
    }
    None
}

/// Casts the ballot of `voter` for `vote_direction` at time `now`.
///
/// The record becomes what [`ballot_cast`] says, and the new tallies come
/// back; or the ballot is refused for the reason that [`ballot_cast`] gives,
/// and the record stays as it was.
pub fn vote_on_proposal(
    proposal: &mut ProposalAccount,
    voter: Identity,
    vote_direction: VoteDirection,
    now: i64,
) -> (result: Result<Tally, ProposalError>)
    ensures
        match ballot_cast(old(proposal)@, voter, vote_direction, now as int) {
            Ok(next) => final(proposal)@ == next && result == Ok::<Tally, ProposalError>(
                tally_of(next),
            ),
            Err(error) => *final(proposal) == *old(proposal) && result == Err::<
                Tally,
                ProposalError,
            >(error),
        },
        old(proposal).well_formed() ==> final(proposal).well_formed(),
{
    proof {
        if proposal.well_formed() {
            lemma_ballot_keeps_well_formed(proposal@, voter, vote_direction, now as int);
        }
    }
    if proposal.closed {
        return Err(ProposalError::ProposalClosed);
    }
    if now >= proposal.expiration_time {
        return Err(ProposalError::ProposalExpired);
    }
    match find_voter(&proposal.voters, &voter) {
        Some(i) => {
            proof {
                lemma_entry_of(proposal.voters@, voter);
            }
            let entry = proposal.voters[i];
            match vote_direction {
                VoteDirection::Yes => {
                    if entry.voted_yes {
                        return Err(ProposalError::AlreadyVotedYes);
                    }
                    let no_votes = if entry.voted_no {
                        match proposal.no_votes.checked_sub(1) {
                            Some(votes) => votes,
                            None => {
                                return Err(ProposalError::Underflow);
                            },
                        }
                    } else {
                        proposal.no_votes
                    };
                    let yes_votes = match proposal.yes_votes.checked_add(1) {
                        Some(votes) => votes,
                        None => {
                            return Err(ProposalError::Overflow);
                        },
                    };
                    proposal.voters[i] = VoterRecord {
                        voter: entry.voter,
                        voted_yes: true,
                        voted_no: false,
                    };
                    proposal.no_votes = no_votes;
                    proposal.yes_votes = yes_votes;
                },
                VoteDirection::No => {
                    if entry.voted_no {
                        return Err(ProposalError::AlreadyVotedNo);
                    }
                    let yes_votes = if entry.voted_yes {
                        match proposal.yes_votes.checked_sub(1) {
                            Some(votes) => votes,
                            None => {
                                return Err(ProposalError::Underflow);
                            },
                        }
                    } else {
                        proposal.yes_votes
                    };
                    let no_votes = match proposal.no_votes.checked_add(1) {
                        Some(votes) => votes,
                        None => {
                            return Err(ProposalError::Overflow);
                        },
                    };
                    proposal.voters[i] = VoterRecord {
                        voter: entry.voter,
                        voted_yes: false,
                        voted_no: true,
                    };
                    proposal.yes_votes = yes_votes;
                    proposal.no_votes = no_votes;
                },
            }
        },
        None => {
            if proposal.voters.len() >= ProposalAccount::MAX_VOTERS {
                return Err(ProposalError::MaxVotersReached);
            }
            let unique_voters = match proposal.unique_voters.checked_add(1) {
                Some(count) => count,
                None => {
                    return Err(ProposalError::Overflow);
                },
            };
            match vote_direction {
                VoteDirection::Yes => {
                    let yes_votes = match proposal.yes_votes.checked_add(1) {
                        Some(votes) => votes,
                        None => {
                            return Err(ProposalError::Overflow);
                        },
                    };
                    proposal.voters.push(VoterRecord { voter, voted_yes: true, voted_no: false });
                    proposal.yes_votes = yes_votes;
                },
                VoteDirection::No => {
                    let no_votes = match proposal.no_votes.checked_add(1) {
                        Some(votes) => votes,
                        None => {
                            return Err(ProposalError::Overflow);
                        },
                    };
                    proposal.voters.push(VoterRecord { voter, voted_yes: false, voted_no: true });
                    proposal.no_votes = no_votes;
                },
            }
            proposal.unique_voters = unique_voters;
        },
    }
    Ok(
        Tally {
            yes_votes: proposal.yes_votes,
            no_votes: proposal.no_votes,
            unique_voters: proposal.unique_voters,
            confidence: proposal.calculate_confidence(),
        },
    )
}

} // verus!
