//! What the operations of the ledger decide, as functions of what the ledger
//! has stored. They touch no storage themselves, so any store can be put under
//! them.

use vstd::prelude::*;

use crate::account::AccountId;
use crate::error::Error;
use crate::proposal::{Proposal, ProposalView};

verus! {

/// Whether a proposal may be created, and under which identifier. Only the
/// owner may create one, and only while the counter of identifiers is below
/// the largest thirty-two bit value; the new proposal gets the counter's
/// present value.
pub open spec fn decide_creation(owner: AccountId, caller: AccountId, next_proposal_id: nat)
    -> Result<nat, Error> {
    if caller != owner {
        Err(Error::NotOwner)
    } else if next_proposal_id >= u32::MAX {
        Err(Error::MaxProposalsReached)
    } else {
        Ok(next_proposal_id)
    }
}

/// Whether a vote counts, and what the proposal is afterwards. The proposal
/// must exist, the caller must not have voted on it before, and the counter
/// that the vote advances must have room, in this order.
pub open spec fn decide_vote(stored: Option<ProposalView>, already_voted: bool, support: bool)
    -> Result<ProposalView, Error> {
    match stored {
        None => Err(Error::ProposalNotFound),
        Some(proposal) => {
            if already_voted {
                Err(Error::AlreadyVoted)
            } else if !proposal.has_room(support) {
                Err(Error::Overflow)
            } else {
                Ok(proposal.with_vote(support))
            }
        },
    }
}

/// What a reader gets of a proposal: its title and its two counters, or
/// `ProposalNotFound` where there is none.
pub open spec fn decide_reading(stored: Option<ProposalView>) -> Result<
    (Seq<char>, nat, nat),
    Error,
> {
    match stored {
        Some(proposal) => Ok((proposal.title, proposal.votes_for, proposal.votes_against)),
        None => Err(Error::ProposalNotFound),
    }
}

/// The view of a proposal that may be absent.
pub open spec fn stored_view(stored: Option<&Proposal>) -> Option<ProposalView> {
    match stored {
        Some(proposal) => Some(proposal@),
        None => None,
    }
}

/// Decides the creation of a proposal with the given title. On success the
/// result holds the new proposal, with both counters at zero, and the value
/// of the counter of identifiers after the creation.
pub fn open_proposal(
    owner: &AccountId,
    caller: &AccountId,
    next_proposal_id: u32,
    title: String,
) -> (decision: Result<(Proposal, u32), Error>)
    ensures
        match decision {
            Ok((proposal, advanced)) => {
                &&& decide_creation(*owner, *caller, next_proposal_id as nat) == Ok::<nat, Error>(
                    next_proposal_id as nat,
                )
                &&& proposal@ == ProposalView::fresh(next_proposal_id as nat, title@)
                &&& advanced == next_proposal_id + 1
            },
            Err(error) => decide_creation(*owner, *caller, next_proposal_id as nat) == Err::<
                nat,
                Error,
            >(error),
        },
{
    if !(caller == owner) {
        return Err(Error::NotOwner);
    }
    match next_proposal_id.checked_add(1) {
        None => Err(Error::MaxProposalsReached),
        Some(advanced) => Ok((Proposal::new(next_proposal_id, title), advanced)),
    }
}

/// Decides a vote on the proposal that the ledger has stored under the
/// identifier voted on, if it has one. `already_voted` says whether the ledger
/// holds a vote of the caller on that proposal. On success the result is the
/// proposal with the vote counted.
pub fn cast_vote(stored: Option<&Proposal>, already_voted: bool, support: bool) -> (decision:
    Result<Proposal, Error>)
    ensures
        match decision {
            Ok(proposal) => decide_vote(stored_view(stored), already_voted, support) == Ok::<
                ProposalView,
                Error,
            >(proposal@),
            Err(error) => decide_vote(stored_view(stored), already_voted, support) == Err::<
                ProposalView,
                Error,
            >(error),
        },
{
    match stored {
        None => Err(Error::ProposalNotFound),
        Some(proposal) => {
            if already_voted {
                Err(Error::AlreadyVoted)
            } else {
                proposal.with_vote(support)
            }
        },
    }
}

/// Reads the proposal that the ledger has stored under the identifier read,
/// if it has one: a copy of its title, and its two counters.
pub fn read_proposal(stored: Option<&Proposal>) -> (reading: Result<(String, u32, u32), Error>)
    ensures
        match reading {
            Ok((title, votes_for, votes_against)) => decide_reading(stored_view(stored)) == Ok::<
                (Seq<char>, nat, nat),
                Error,
            >((title@, votes_for as nat, votes_against as nat)),
            Err(error) => decide_reading(stored_view(stored)) == Err::<
                (Seq<char>, nat, nat),
                Error,
            >(error),
        },
{
    match stored {
        Some(proposal) => Ok(
            (proposal.title().clone(), proposal.votes_for(), proposal.votes_against()),
        ),
        None => Err(Error::ProposalNotFound),
    }
}

} // verus!
