//! What holds of the ledger as a whole: statements about every record that
//! the three operations can produce, and about operations that follow one
//! another. Each is stated over the functions that the operations' own
//! contracts are stated in.

use crate::ballot::{
    already_voted, ballot_cast, entry_of, is_first_entry, lemma_ballot_keeps_well_formed,
    lemma_entry_of, lemma_first_entry_is_entry_of,
};
use crate::error::ProposalError;
use crate::factory::proposal_opened;
use crate::identity::Identity;
use crate::record::{
    flags_set, lemma_ballots_within_len, lemma_flags_are_ballots, majority, ProposalAccount,
    ProposalView, VoteDirection,
};
use crate::resolver::proposal_closed;
use vstd::prelude::*;

verus! {

/// One attempt to change a record.
pub enum Attempt {
    /// A ballot of `voter` for `direction`, cast at time `now`.
    Vote { voter: Identity, direction: VoteDirection, now: int },
    /// `caller` asks to close the proposal.
    Close { caller: Identity },
}

/// The record after one attempt: what the operation makes of it, or the
/// record itself where the operation is refused.
pub open spec fn after(p: ProposalView, attempt: Attempt) -> ProposalView {
    match attempt {
        Attempt::Vote { voter, direction, now } => match ballot_cast(p, voter, direction, now) {
            Ok(next) => next,
            Err(_) => p,
        },
        Attempt::Close { caller } => match proposal_closed(p, caller) {
            Ok(next) => next,
            Err(_) => p,
        },
    }
}

/// The record after a run of attempts, made one after the other.
pub open spec fn after_all(p: ProposalView, attempts: Seq<Attempt>) -> ProposalView
    decreases attempts.len(),
{
    if attempts.len() == 0 {
        p
    } else {
        after(after_all(p, attempts.drop_last()), attempts.last())
    }
}

/// A freshly opened record is well-formed.
pub proof fn theorem_opened_record_is_well_formed(
    author: Identity,
    title: Seq<char>,
    description: Seq<char>,
    token_address: Identity,
    expiration_time: int,
    now: int,
)
    ensures
        match proposal_opened(author, title, description, token_address, expiration_time, now) {
            Ok(record) => record.well_formed(),
            Err(_) => true,
        },
{
}

/// No attempt, taken or refused, leads out of the well-formed records.
pub proof fn theorem_attempt_keeps_well_formed(p: ProposalView, attempt: Attempt)
    requires
        p.well_formed(),
    ensures
        after(p, attempt).well_formed(),
{
    match attempt {
        Attempt::Vote { voter, direction, now } => {
            lemma_ballot_keeps_well_formed(p, voter, direction, now);
        },
        Attempt::Close { caller } => {},
    }
}

/// In a well-formed record the two tallies together are the number of flags
/// that are set in the voter table, which is the number of voters; no entry
/// has both flags set; and the counters are far from the end of their width.
pub proof fn theorem_tallies_count_the_ballots(p: ProposalView)
    requires
        p.well_formed(),
    ensures
        p.yes_votes + p.no_votes == flags_set(p.voters),
        p.yes_votes + p.no_votes == p.unique_voters,
        p.unique_voters <= ProposalAccount::MAX_VOTERS,
        forall|i: int|
            0 <= i < p.voters.len() ==> !((#[trigger] p.voters[i]).voted_yes && p.voters[i].voted_no),
{
    lemma_flags_are_ballots(p.voters);
    lemma_one_flag_each(p);
    assert forall|i: int| 0 <= i < p.voters.len() implies !((#[trigger] p.voters[i]).voted_yes
        && p.voters[i].voted_no) by {
        assert(p.voters[i].one_sided());
    }
}

/// Where every entry counts for exactly one side, there are as many flags as
/// entries.
proof fn lemma_one_flag_each(p: ProposalView)
    requires
        forall|i: int| 0 <= i < p.voters.len() ==> (#[trigger] p.voters[i]).one_sided(),
    ensures
        flags_set(p.voters) == p.voters.len(),
    decreases p.voters.len(),
{
    if p.voters.len() > 0 {
        let rest = ProposalView { voters: p.voters.drop_last(), ..p };
        assert forall|i: int| 0 <= i < rest.voters.len() implies (#[trigger] rest.voters[i]).one_sided() by {
            assert(rest.voters[i] == p.voters[i]);
        }
        lemma_one_flag_each(rest);
        assert(p.voters.last().one_sided());
    }
}

/// Every record that can be reached is well-formed: open a proposal, then
/// make any attempts in any order, and the tallies still count the ballots of
/// the voter table, with no voter counted on both sides.
pub proof fn theorem_reachable_records_are_well_formed(
    author: Identity,
    title: Seq<char>,
    description: Seq<char>,
    token_address: Identity,
    expiration_time: int,
    now: int,
    attempts: Seq<Attempt>,
)
    requires
        proposal_opened(author, title, description, token_address, expiration_time, now) is Ok,
    ensures
        ({
            let reached = after_all(
                proposal_opened(
                    author,
                    title,
                    description,
                    token_address,
                    expiration_time,
                    now,
                ).unwrap(),
                attempts,
            );
            &&& reached.well_formed()
            &&& reached.yes_votes + reached.no_votes == flags_set(reached.voters)
            &&& forall|i: int|
                0 <= i < reached.voters.len() ==> !((#[trigger] reached.voters[i]).voted_yes
                    && reached.voters[i].voted_no)
        }),
    decreases attempts.len(),
{
    let start = proposal_opened(
        author,
        title,
        description,
        token_address,
        expiration_time,
        now,
    ).unwrap();
    if attempts.len() > 0 {
        theorem_reachable_records_are_well_formed(
            author,
            title,
            description,
            token_address,
            expiration_time,
            now,
            attempts.drop_last(),
        );
        theorem_attempt_keeps_well_formed(
            after_all(start, attempts.drop_last()),
            attempts.last(),
        );
    }
    theorem_tallies_count_the_ballots(after_all(start, attempts));
}

/// The voter table holds [`ProposalAccount::MAX_VOTERS`] voters and no more:
/// on an open, unexpired, well-formed record the first ballot of a new voter
/// is taken while there is room, and refused for want of room once the table
/// is full.
pub proof fn theorem_table_holds_max_voters(
    p: ProposalView,
    voter: Identity,
    direction: VoteDirection,
    now: int,
)
    requires
        p.well_formed(),
        !p.closed,
        now < p.expiration_time,
        !p.has_voter(voter),
    ensures
        p.voters.len() < ProposalAccount::MAX_VOTERS ==> {
            &&& ballot_cast(p, voter, direction, now) is Ok
            &&& ballot_cast(p, voter, direction, now).unwrap().voters.len() == p.voters.len() + 1
            &&& ballot_cast(p, voter, direction, now).unwrap().has_voter(voter)
        },
        p.voters.len() == ProposalAccount::MAX_VOTERS ==> ballot_cast(p, voter, direction, now)
            == Err::<ProposalView, ProposalError>(ProposalError::MaxVotersReached),
{
    lemma_entry_of(p.voters, voter);
    lemma_ballots_within_len(p.voters, direction);
    if p.voters.len() < ProposalAccount::MAX_VOTERS {
        let next = ballot_cast(p, voter, direction, now).unwrap();
        assert(next.voters[p.voters.len() as int].voter == voter);
    }
}

/// A voter cannot vote for the same side twice in a row: after a ballot that
/// was taken, a second one of the same voter for the same side, cast before
/// the expiration time, is refused as already cast, so that nothing changes.
pub proof fn theorem_same_side_twice_is_refused(
    p: ProposalView,
    voter: Identity,
    direction: VoteDirection,
    now: int,
    later: int,
)
    requires
        ballot_cast(p, voter, direction, now) is Ok,
        later < p.expiration_time,
    ensures
        ballot_cast(ballot_cast(p, voter, direction, now).unwrap(), voter, direction, later)
            == Err::<ProposalView, ProposalError>(already_voted(direction)),
        after(
            ballot_cast(p, voter, direction, now).unwrap(),
            Attempt::Vote { voter, direction, now: later },
        ) == ballot_cast(p, voter, direction, now).unwrap(),
{
    let next = ballot_cast(p, voter, direction, now).unwrap();
    lemma_entry_of(p.voters, voter);
    match entry_of(p.voters, voter) {
        None => {
            let i = p.voters.len() as int;
            assert(is_first_entry(next.voters, voter, i));
            lemma_first_entry_is_entry_of(next.voters, voter, i);
        },
        Some(i) => {
            assert(is_first_entry(next.voters, voter, i));
            lemma_first_entry_is_entry_of(next.voters, voter, i);
        },
    }
}

/// A voter who switches sides moves one ballot across: on an open, unexpired,
/// well-formed record, a ballot for the side opposite to the one held takes
/// one count from the old side and gives one to the new, and neither the
/// number of voters nor the length of the table changes.
pub proof fn theorem_switch_moves_one_ballot(
    p: ProposalView,
    voter: Identity,
    direction: VoteDirection,
    now: int,
)
    requires
        p.well_formed(),
        !p.closed,
        now < p.expiration_time,
        entry_of(p.voters, voter) is Some,
        p.voters[entry_of(p.voters, voter).unwrap()].holds(direction.opposite()),
    ensures
        ballot_cast(p, voter, direction, now) is Ok,
        ({
            let next = ballot_cast(p, voter, direction, now).unwrap();
            &&& next.tally(direction) == p.tally(direction) + 1
            &&& next.tally(direction.opposite()) == p.tally(direction.opposite()) - 1
            &&& next.unique_voters == p.unique_voters
            &&& next.voters.len() == p.voters.len()
            &&& next.voters[entry_of(p.voters, voter).unwrap()].holds(direction)
            &&& !next.voters[entry_of(p.voters, voter).unwrap()].holds(direction.opposite())
        }),
{
    lemma_entry_of(p.voters, voter);
    lemma_ballot_keeps_well_formed(p, voter, direction, now);
    let i = entry_of(p.voters, voter).unwrap();
    assert(p.voters[i].one_sided());
}

/// The expiration time is the first moment at which no ballot is taken: on an
/// open record a ballot cast at or after it is refused as expired, and one
/// cast before it is never refused for that reason.
pub proof fn theorem_expiration_is_strict(
    p: ProposalView,
    voter: Identity,
    direction: VoteDirection,
    now: int,
)
    requires
        !p.closed,
    ensures
        now >= p.expiration_time ==> ballot_cast(p, voter, direction, now) == Err::<
            ProposalView,
            ProposalError,
        >(ProposalError::ProposalExpired),
        now < p.expiration_time ==> ballot_cast(p, voter, direction, now) != Err::<
            ProposalView,
            ProposalError,
        >(ProposalError::ProposalExpired),
{
    if now < p.expiration_time {
        lemma_entry_of(p.voters, voter);
    }
}

/// The outcome is a function of the tallies alone: when the author closes
/// two open records with the same tallies, both end the same way, which is
/// the majority of the tallies.
pub proof fn theorem_outcome_follows_tallies(p: ProposalView, q: ProposalView)
    requires
        !p.closed,
        !q.closed,
        p.yes_votes == q.yes_votes,
        p.no_votes == q.no_votes,
    ensures
        proposal_closed(p, p.author) is Ok,
        proposal_closed(q, q.author) is Ok,
        proposal_closed(p, p.author).unwrap().outcome == Some(majority(p.yes_votes, p.no_votes)),
        proposal_closed(p, p.author).unwrap().outcome == proposal_closed(
            q,
            q.author,
        ).unwrap().outcome,
{
}

/// A record is closed once: after a closing that was taken, whoever asks to
/// close again is refused, and the outcome stays what it was.
pub proof fn theorem_closing_twice_is_refused(p: ProposalView, caller: Identity, again: Identity)
    requires
        proposal_closed(p, caller) is Ok,
    ensures
        proposal_closed(proposal_closed(p, caller).unwrap(), again) == Err::<
            ProposalView,
            ProposalError,
        >(ProposalError::ProposalAlreadyClosed),
        after(proposal_closed(p, caller).unwrap(), Attempt::Close { caller: again })
            == proposal_closed(p, caller).unwrap(),
{
}

/// Only the author closes: on an open record anyone else is refused as
/// unauthorized, and the record stays open.
pub proof fn theorem_only_the_author_closes(p: ProposalView, caller: Identity)
    requires
        !p.closed,
        caller != p.author,
    ensures
        proposal_closed(p, caller) == Err::<ProposalView, ProposalError>(
            ProposalError::Unauthorized,
        ),
        after(p, Attempt::Close { caller }) == p,
        !after(p, Attempt::Close { caller }).closed,
{
}

/// A closed record is frozen: every attempt on it is refused, a ballot as
/// cast on a closed proposal and a closing as made before, and leaves it as
/// it is.
pub proof fn theorem_closed_record_is_frozen(p: ProposalView, attempt: Attempt)
    requires
        p.closed,
    ensures
        after(p, attempt) == p,
        match attempt {
            Attempt::Vote { voter, direction, now } => ballot_cast(p, voter, direction, now)
                == Err::<ProposalView, ProposalError>(ProposalError::ProposalClosed),
            Attempt::Close { caller } => proposal_closed(p, caller) == Err::<
                ProposalView,
                ProposalError,
            >(ProposalError::ProposalAlreadyClosed),
        },
{
}

/// What no attempt touches, and what only grows: the author, the texts, the
/// subject and the two times stay as they were made; a closed record stays
/// closed; the number of voters never falls; and the voter table keeps its
/// entries in their places, each with its voter, adding at most one at the
/// end.
pub proof fn theorem_attempt_keeps_what_was_made(p: ProposalView, attempt: Attempt)
    ensures
        ({
            let next = after(p, attempt);
            &&& next.author == p.author
            &&& next.title == p.title
            &&& next.description == p.description
            &&& next.token_address == p.token_address
            &&& next.created_at == p.created_at
            &&& next.expiration_time == p.expiration_time
            &&& p.closed ==> next.closed
            &&& next.unique_voters >= p.unique_voters
            &&& p.voters.len() <= next.voters.len() <= p.voters.len() + 1
            &&& forall|i: int|
                0 <= i < p.voters.len() ==> (#[trigger] next.voters[i]).voter == p.voters[i].voter
        }),
{
    match attempt {
        Attempt::Vote { voter, direction, now } => {
            lemma_entry_of(p.voters, voter);
        },
        Attempt::Close { caller } => {},
    }
}

} // verus!
