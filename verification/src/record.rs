//! The proposal record: its fields, its mathematical view, the invariant that
//! the ledger keeps, and the figures that can be read off the tallies.

use crate::identity::Identity;
use vstd::prelude::*;

verus! {

/// The side of a ballot.
#[derive(Clone, Copy, Debug, PartialEq, Eq, Structural)]
pub enum VoteDirection {
    Yes,
    No,
}

impl VoteDirection {
    /// The other side.
    pub open spec fn opposite(self) -> VoteDirection {
        match self {
            VoteDirection::Yes => VoteDirection::No,
            VoteDirection::No => VoteDirection::Yes,
        }
    }
}

/// How a closed proposal ended.
#[derive(Clone, Copy, Debug, PartialEq, Eq, Structural)]
pub enum ProposalOutcome {
    YesWins,
    NoWins,
    Tied,
}

/// The side with strictly more ballots wins; equal tallies tie, also at 0 to 0.
pub open spec fn majority(yes_votes: nat, no_votes: nat) -> ProposalOutcome {
    if yes_votes > no_votes {
        ProposalOutcome::YesWins
    } else if no_votes > yes_votes {
        ProposalOutcome::NoWins
    } else {
        ProposalOutcome::Tied
    }
}

/// One voter's entry in the voter table.
#[derive(Clone, Copy, Debug, PartialEq, Eq)]
pub struct VoterRecord {
    pub voter: Identity,
    pub voted_yes: bool,
    pub voted_no: bool,
}

impl VoterRecord {
    /// Whether the entry holds a ballot for `direction`.
    pub open spec fn holds(self, direction: VoteDirection) -> bool {
        match direction {
            VoteDirection::Yes => self.voted_yes,
            VoteDirection::No => self.voted_no,
        }
    }

    /// Whether the entry counts for exactly one side.
    pub open spec fn one_sided(self) -> bool {
        self.voted_yes != self.voted_no
    }

    /// How many of the two flags are set.
    pub open spec fn flags_set(self) -> nat {
        (if self.voted_yes { 1nat } else { 0nat }) + (if self.voted_no { 1nat } else { 0nat })
    }

    /// The entry of `voter` with a ballot for `direction` and none for the other side.
    pub open spec fn casting(voter: Identity, direction: VoteDirection) -> VoterRecord {
        VoterRecord {
            voter,
            voted_yes: direction == VoteDirection::Yes,
            voted_no: direction == VoteDirection::No,
        }
    }
}

/// The number of entries of `voters` that hold a ballot for `direction`.
pub open spec fn ballots_for(voters: Seq<VoterRecord>, direction: VoteDirection) -> nat
    decreases voters.len(),
{
    if voters.len() == 0 {
        0
    } else {
        ballots_for(voters.drop_last(), direction) + (if voters.last().holds(direction) {
            1nat
        } else {
            0nat
        })
    }
}

/// The number of flags that are set over all entries of `voters`.
pub open spec fn flags_set(voters: Seq<VoterRecord>) -> nat
    decreases voters.len(),
{
    if voters.len() == 0 {
        0
    } else {
        flags_set(voters.drop_last()) + voters.last().flags_set()
    }
}

/// No side has more ballots than there are entries.
pub proof fn lemma_ballots_within_len(voters: Seq<VoterRecord>, direction: VoteDirection)
    ensures
        ballots_for(voters, direction) <= voters.len(),
    decreases voters.len(),
{
    if voters.len() > 0 {
        lemma_ballots_within_len(voters.drop_last(), direction);
    }
}

/// An entry that holds a ballot for a side is counted on that side.
pub proof fn lemma_ballot_is_counted(voters: Seq<VoterRecord>, direction: VoteDirection, i: int)
    requires
        0 <= i < voters.len(),
        voters[i].holds(direction),
    ensures
        ballots_for(voters, direction) >= 1,
    decreases voters.len(),
{
    if i < voters.len() - 1 {
        lemma_ballot_is_counted(voters.drop_last(), direction, i);
    }
}

/// A new entry at the end adds its own ballot to the count of each side.
pub proof fn lemma_ballots_after_push(
    voters: Seq<VoterRecord>,
    entry: VoterRecord,
    direction: VoteDirection,
)
    ensures
        ballots_for(voters.push(entry), direction) == ballots_for(voters, direction) + (if entry.holds(
            direction,
        ) {
            1nat
        } else {
            0nat
        }),
{
    assert(voters.push(entry).drop_last() =~= voters);
}

/// An entry that is replaced takes its old ballot out of the count of each
/// side and puts its new one in.
pub proof fn lemma_ballots_after_update(
    voters: Seq<VoterRecord>,
    i: int,
    entry: VoterRecord,
    direction: VoteDirection,
)
    requires
        0 <= i < voters.len(),
    ensures
        ballots_for(voters.update(i, entry), direction) + (if voters[i].holds(direction) {
            1nat
        } else {
            0nat
        }) == ballots_for(voters, direction) + (if entry.holds(direction) {
            1nat
        } else {
            0nat
        }),
    decreases voters.len(),
{
    if i == voters.len() - 1 {
        assert(voters.update(i, entry).drop_last() =~= voters.drop_last());
    } else {
        assert(voters.update(i, entry).drop_last() =~= voters.drop_last().update(i, entry));
        lemma_ballots_after_update(voters.drop_last(), i, entry, direction);
    }
}

/// The flags that are set are the ballots of the two sides together.
pub proof fn lemma_flags_are_ballots(voters: Seq<VoterRecord>)
    ensures
        flags_set(voters) == ballots_for(voters, VoteDirection::Yes) + ballots_for(
            voters,
            VoteDirection::No,
        ),
    decreases voters.len(),
{
    if voters.len() > 0 {
        lemma_flags_are_ballots(voters.drop_last());
    }
}

/// The length of `text` in bytes, which is the unit of the two text limits.
pub open spec fn byte_len(text: Seq<char>) -> nat {
    vstd::utf8::encode_utf8(text).len()
}

/// A proposal with its ballots, as it is stored.
#[derive(Clone, Debug, PartialEq, Eq)]
pub struct ProposalAccount {
    /// Who opened the proposal, and who alone may close it.
    pub author: Identity,
    pub title: String,
    pub description: String,
    /// What the proposal is about.
    pub token_address: Identity,
    pub created_at: i64,
    pub expiration_time: i64,
    pub yes_votes: u32,
    pub no_votes: u32,
    /// How many distinct voters have cast a ballot.
    pub unique_voters: u32,
    /// One entry per voter, in the order of their first ballots.
    pub voters: Vec<VoterRecord>,
    pub closed: bool,
    /// Absent while the proposal is open.
    pub outcome: Option<ProposalOutcome>,
}

/// A [`ProposalAccount`] as a mathematical value.
#[verifier::ext_equal]
pub struct ProposalView {
    pub author: Identity,
    pub title: Seq<char>,
    pub description: Seq<char>,
    pub token_address: Identity,
    pub created_at: int,
    pub expiration_time: int,
    pub yes_votes: nat,
    pub no_votes: nat,
    pub unique_voters: nat,
    pub voters: Seq<VoterRecord>,
    pub closed: bool,
    pub outcome: Option<ProposalOutcome>,
}

impl View for ProposalAccount {
    type V = ProposalView;

    open spec fn view(&self) -> ProposalView {
        ProposalView {
            author: self.author,
            title: self.title@,
            description: self.description@,
            token_address: self.token_address,
            created_at: self.created_at as int,
            expiration_time: self.expiration_time as int,
            yes_votes: self.yes_votes as nat,
            no_votes: self.no_votes as nat,
            unique_voters: self.unique_voters as nat,
            voters: self.voters@,
            closed: self.closed,
            outcome: self.outcome,
        }
    }
}

impl ProposalView {
    /// The record of a proposal that has just been opened.
    pub open spec fn opened(
        author: Identity,
        title: Seq<char>,
        description: Seq<char>,
        token_address: Identity,
        created_at: int,
        expiration_time: int,
    ) -> ProposalView {
        ProposalView {
            author,
            title,
            description,
            token_address,
            created_at,
            expiration_time,
            yes_votes: 0,
            no_votes: 0,
            unique_voters: 0,
            voters: Seq::empty(),
            closed: false,
            outcome: None,
        }
    }

    /// The tally of one side.
    pub open spec fn tally(self, direction: VoteDirection) -> nat {
        match direction {
            VoteDirection::Yes => self.yes_votes,
            VoteDirection::No => self.no_votes,
        }
    }

    /// Whether some entry of the voter table bears `voter`.
    pub open spec fn has_voter(self, voter: Identity) -> bool {
        exists|i: int| 0 <= i < self.voters.len() && (#[trigger] self.voters[i]).voter == voter
    }

    /// What holds of every record that the ledger has made and kept:
    /// the texts are within their limits; the voter table has one entry for
    /// each distinct voter, at most [`ProposalAccount::MAX_VOTERS`] of them,
    /// each counting for exactly one side; each tally is the number of entries
    /// on its side; and the outcome is there once the record is closed, and
    /// is then the majority of the tallies.
    pub open spec fn well_formed(self) -> bool {
        &&& byte_len(self.title) <= ProposalAccount::MAX_TITLE_LEN
        &&& byte_len(self.description) <= ProposalAccount::MAX_DESCRIPTION_LEN
        &&& self.voters.len() == self.unique_voters
        &&& self.voters.len() <= ProposalAccount::MAX_VOTERS
        &&& forall|i: int| 0 <= i < self.voters.len() ==> (#[trigger] self.voters[i]).one_sided()
        &&& forall|i: int, j: int|
            0 <= i < j < self.voters.len() ==> (#[trigger] self.voters[i]).voter != (
            #[trigger] self.voters[j]).voter
        &&& self.yes_votes == ballots_for(self.voters, VoteDirection::Yes)
        &&& self.no_votes == ballots_for(self.voters, VoteDirection::No)
        &&& self.closed <==> self.outcome is Some
        &&& self.closed ==> self.outcome == Some(majority(self.yes_votes, self.no_votes))
    }

    /// How lopsided the tallies are, as a percentage rounded down: nothing
    /// before the first ballot, one hundred when all ballots are on one side.
    pub open spec fn confidence(self) -> int {
        let total = (self.yes_votes + self.no_votes) as int;
        if self.unique_voters == 0 || total == 0 {
            0
        } else if self.yes_votes >= self.no_votes {
            100 * (self.yes_votes - self.no_votes) / total
        } else {
            100 * (self.no_votes - self.yes_votes) / total
        }
    }

    /// The share of `direction` among the ballots, as a percentage rounded
    /// down; nothing where no ballot has been cast.
    pub open spec fn percentage(self, direction: VoteDirection) -> int {
        let total = (self.yes_votes + self.no_votes) as int;
        if total == 0 {
            0
        } else {
            100 * (self.tally(direction) as int) / total
        }
    }
}

/// `100 * part / whole` is a percentage where `part` is within `whole`.
proof fn lemma_percentage_bound(part: int, whole: int)
    requires
        0 <= part <= whole,
        0 < whole,
    ensures
        0 <= 100 * part / whole <= 100,
{
    assert(0 <= 100 * part / whole <= 100) by (nonlinear_arith)
        requires
            0 <= part <= whole,
            0 < whole,
    ;
}

impl ProposalAccount {
    /// The most distinct voters that one record can hold.
    pub const MAX_VOTERS: usize = 250;

    /// The most bytes that a title can have.
    pub const MAX_TITLE_LEN: usize = 100;

    /// The most bytes that a description can have.
    pub const MAX_DESCRIPTION_LEN: usize = 500;

    /// The bytes that a stored record can take at most. The room is reserved
    /// when the record is made and never grows: two identities, the two texts
    /// with their length prefixes, two timestamps, three counters, the voter
    /// table with its length prefix, the closed flag and the outcome.
    pub const INIT_SPACE: usize = 32 + 4 + 100 + 4 + 500 + 32 + 8 + 8 + 4 + 4 + 4 + 4 + (34
        * Self::MAX_VOTERS) + 1 + 2;

    /// See [`ProposalView::well_formed`].
    pub open spec fn well_formed(&self) -> bool {
        self@.well_formed()
    }

    /// The confidence index of the current tallies, from 0 to 100.
    pub fn calculate_confidence(&self) -> (confidence: u32)
        ensures
            confidence == self@.confidence(),
            confidence <= 100,
    {
        if self.unique_voters == 0 {
            return 0;
        }
        let total: u64 = self.yes_votes as u64 + self.no_votes as u64;
        if total == 0 {
            return 0;
        }
        let difference: u32 = if self.yes_votes > self.no_votes {
            self.yes_votes - self.no_votes
        } else {
            self.no_votes - self.yes_votes
        };
        proof {
            lemma_percentage_bound(difference as int, total as int);
        }
        ((difference as u64 * 100) / total) as u32
    }

    /// The share of Yes ballots, from 0 to 100.
    pub fn yes_percentage(&self) -> (percentage: u32)
        ensures
            percentage == self@.percentage(VoteDirection::Yes),
            percentage <= 100,
    {
        share(self.yes_votes, self.no_votes)
    }

    /// The share of No ballots, from 0 to 100.
    pub fn no_percentage(&self) -> (percentage: u32)
        ensures
            percentage == self@.percentage(VoteDirection::No),
            percentage <= 100,
    {
        share(self.no_votes, self.yes_votes)
    }
}

/// `100 * part / max(part + rest, 1)`, rounded down.
fn share(part: u32, rest: u32) -> (percentage: u32)
    ensures
        percentage == if part + rest == 0 {
            0
        } else {
            100 * part / (part + rest)
        },
        percentage <= 100,
{
    let sum: u64 = part as u64 + rest as u64;
    let total: u64 = if sum == 0 {
        1
    } else {
        sum
    };
    proof {
        lemma_percentage_bound(part as int, total as int);
    }
    ((part as u64 * 100) / total) as u32
}

} // verus!
