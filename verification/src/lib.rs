//! A ledger of proposals and their ballots.
//!
//! An author opens a proposal about a subject ([`factory`]); voters cast one
//! ballot each, for or against, and may change sides until the proposal
//! expires ([`ballot`]); the author closes the proposal, which fixes the
//! outcome ([`resolver`]). The record of a proposal, its invariant and the
//! figures read off its tallies are in [`record`]; what holds of the three
//! operations together is proved in [`theorems`].
//!
//! The clock and the identities of callers come from outside: every
//! operation takes them as arguments.

pub mod ballot;
pub mod error;
pub mod factory;
pub mod identity;
pub mod record;
pub mod resolver;
pub mod theorems;

pub use crate::ballot::{vote_on_proposal, Tally};
pub use crate::error::ProposalError;
pub use crate::factory::create_proposal;
pub use crate::identity::Identity;
pub use crate::record::{ProposalAccount, ProposalOutcome, VoteDirection, VoterRecord};
pub use crate::resolver::close_proposal;
