use vstd::prelude::*;

verus! {

/// The ways in which an operation of the ledger can be refused.
#[derive(Debug, Clone, Copy, PartialEq, Eq, Structural)]
pub enum Error {
    /// The caller is not the owner of the ledger.
    NotOwner,
    /// No proposal has the given identifier.
    ProposalNotFound,
    /// The caller has already voted on the proposal.
    AlreadyVoted,
    /// The identifier counter cannot advance any further.
    MaxProposalsReached,
    /// A vote counter cannot advance any further.
    Overflow,
}

} // verus!
