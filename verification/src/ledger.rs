//! The ledger itself: the state that it owns, and its operations.

use vstd::prelude::*;

use crate::account::AccountId;
use crate::error::Error;
use crate::event::{event_views, Event, ProposalCreated, VoteCast};
use crate::model::LedgerView;
use crate::proposal::Proposal;
use crate::rules::{cast_vote, open_proposal, read_proposal, stored_view};

verus! {

/// A ledger of proposals and votes. Its owner creates proposals; anyone may
/// vote on a proposal, once.
pub struct Votaciones {
    owner: AccountId,
    /// The proposals, each at the index that is its identifier.
    proposals: Vec<Proposal>,
    /// For each proposal, those who have voted on it, in the order of their
    /// votes.
    voters: Vec<Vec<AccountId>>,
    next_proposal_id: u32,
    /// The notifications that the host has not taken yet.
    events: Vec<Event>,
    /// How each voter voted. Only the fact of a vote is kept at run time.
    ballots: Ghost<Map<(nat, AccountId), bool>>,
}

impl View for Votaciones {
    type V = LedgerView;

    closed spec fn view(&self) -> LedgerView {
        LedgerView {
            owner: self.owner,
            proposals: Map::new(
                |id: nat| id < self.proposals.len(),
                |id: nat| self.proposals[id as int]@,
            ),
            ballots: self.ballots@,
            next_proposal_id: self.next_proposal_id as nat,
            events: event_views(self.events@),
        }
    }
}

/// Whether the given voter is one of the given voters.
fn is_among(voters: &Vec<AccountId>, voter: &AccountId) -> (found: bool)
    ensures
        found == voters@.contains(*voter),
{
    let mut position: usize = 0;
    while position < voters.len()
        invariant
            position <= voters.len(),
            forall|k: int| 0 <= k < position ==> voters[k] != *voter,
        decreases voters.len() - position,
    {
        if voters[position] == *voter {
            return true;
        }
        position += 1;
    }
    false
}

impl Votaciones {
    /// Whether what the ledger holds at run time agrees with its view.
    pub closed spec fn coherent(&self) -> bool {
        &&& self.proposals.len() == self.next_proposal_id
        &&& self.voters.len() == self.proposals.len()
        &&& forall|index: int, voter: AccountId|
            0 <= index < self.voters.len() ==> (#[trigger] self.voters[index]@.contains(
                voter,
            ) <==> self.ballots@.contains_key((index as nat, voter)))
    }

    /// Whether the ledger is in a state that it can reach from `new` by its
    /// own operations.
    pub open spec fn wf(&self) -> bool {
        &&& self.coherent()
        &&& self@.inv()
    }

    /// A ledger without proposals, owned by the caller.
    pub fn new(caller: AccountId) -> (ledger: Votaciones)
        ensures
            ledger.wf(),
            ledger@ == LedgerView::init(caller),
    {
        let ledger = Votaciones {
            owner: caller,
            proposals: Vec::new(),
            voters: Vec::new(),
            next_proposal_id: 0,
            events: Vec::new(),
            ballots: Ghost(Map::empty()),
        };
        proof {
            LedgerView::init_keeps_inv(caller);
            assert(ledger@.proposals =~= Map::<nat, crate::proposal::ProposalView>::empty());
            assert(ledger@.events =~= Seq::empty());
        }
        ledger
    }

    /// The proposal stored under the given identifier, if there is one.
    fn lookup(&self, proposal_id: u32) -> (stored: Option<&Proposal>)
        ensures
            stored_view(stored) == self@.stored(proposal_id as nat),
    {
        let index = proposal_id as usize;
        if index < self.proposals.len() {
            Some(&self.proposals[index])
        } else {
            None
        }
    }

    /// Whether the given voter has voted on the given proposal.
    fn has_vote_of(&self, proposal_id: u32, voter: &AccountId) -> (voted: bool)
        requires
            self.wf(),
        ensures
            voted == self@.has_voted(proposal_id as nat, *voter),
    {
        let index = proposal_id as usize;
        if index < self.voters.len() {
            is_among(&self.voters[index], voter)
        } else {
            false
        }
    }

    /// Creates a proposal with the given title, if the caller is the owner.
    /// The proposal gets the next identifier, which is returned. A caller
    /// other than the owner gets `NotOwner`; when the identifiers are used up,
    /// the owner gets `MaxProposalsReached`. Then nothing changes.
    pub fn create_proposal(&mut self, caller: AccountId, title: String) -> (created: Result<
        u32,
        Error,
    >)
        requires
            old(self).wf(),
        ensures
            final(self).wf(),
            final(self)@ == old(self)@.after_create_proposal(caller, title@),
            created is Err ==> *final(self) == *old(self),
            match created {
                Ok(id) => old(self)@.create_proposal_outcome(caller) == Ok::<nat, Error>(
                    id as nat,
                ),
                Err(error) => old(self)@.create_proposal_outcome(caller) == Err::<nat, Error>(
                    error,
                ),
            },
    {
        let id = self.next_proposal_id;
        match open_proposal(&self.owner, &caller, id, title) {
            Err(error) => Err(error),
            Ok((proposal, advanced)) => {
                let event = Event::ProposalCreated(
                    ProposalCreated { id, title: proposal.title().clone() },
                );
                self.proposals.push(proposal);
                self.voters.push(Vec::new());
                self.next_proposal_id = advanced;
                self.events.push(event);
                proof {
                    let before = old(self)@;
                    let after = before.after_create_proposal(caller, title@);
                    before.create_proposal_keeps_inv(caller, title@);
                    assert(self@.proposals =~= after.proposals);
                    assert(self@.events =~= after.events);
                }
                Ok(id)
            },
        }
    }

    /// Counts a vote of the caller on the given proposal: for it where
    /// `state` is true, against it otherwise. Where no such proposal exists
    /// the caller gets `ProposalNotFound`; where the caller has voted on it
    /// before, `AlreadyVoted`; where the counter cannot advance, `Overflow`.
    /// The first of these that applies is returned, and then nothing changes.
    pub fn vote(&mut self, caller: AccountId, proposalid: u32, state: bool) -> (cast: Result<
        (),
        Error,
    >)
        requires
            old(self).wf(),
        ensures
            final(self).wf(),
            final(self)@ == old(self)@.after_vote(caller, proposalid as nat, state),
            cast is Err ==> *final(self) == *old(self),
            match cast {
                Ok(_) => old(self)@.vote_outcome(caller, proposalid as nat, state) is Ok,
                Err(error) => old(self)@.vote_outcome(caller, proposalid as nat, state) == Err::<
                    crate::proposal::ProposalView,
                    Error,
                >(error),
            },
    {
        let already_voted = self.has_vote_of(proposalid, &caller);
        match cast_vote(self.lookup(proposalid), already_voted, state) {
            Err(error) => Err(error),
            Ok(counted) => {
                let index = proposalid as usize;
                self.proposals[index] = counted;
                self.voters[index].push(caller);
                self.ballots = Ghost(self.ballots@.insert((proposalid as nat, caller), state));
                self.events.push(Event::VoteCast(VoteCast { proposalid, voter: caller, state }));
                proof {
                    let before = old(self)@;
                    let after = before.after_vote(caller, proposalid as nat, state);
                    before.vote_keeps_inv(caller, proposalid as nat, state);
                    assert(self@.proposals =~= after.proposals);
                    assert(self@.events =~= after.events);
                    assert forall|at: int, voter: AccountId|
                        0 <= at < self.voters.len() implies (
                    #[trigger] self.voters[at]@.contains(voter)
                        <==> self.ballots@.contains_key((at as nat, voter))) by {
                        if at == index {
                            let earlier = old(self).voters[at]@;
                            if earlier.contains(voter) {
                                let k = choose|k: int| 0 <= k < earlier.len() && earlier[k] == voter;
                                assert(self.voters[at]@[k] == voter);
                            }
                            if voter == caller {
                                assert(self.voters[at]@[earlier.len() as int] == caller);
                            }
                        }
                    }
                }
                Ok(())
            },
        }
    }

    /// The title and the two counters of the given proposal, or
    /// `ProposalNotFound` where no such proposal exists.
    pub fn get_proposal(&self, proposal_id: u32) -> (found: Result<(String, u32, u32), Error>)
        ensures
            match found {
                Ok((title, votes_for, votes_against)) => self@.get_proposal_outcome(proposal_id as nat)
                    == Ok::<(Seq<char>, nat, nat), Error>(
                    (title@, votes_for as nat, votes_against as nat),
                ),
                Err(error) => self@.get_proposal_outcome(proposal_id as nat) == Err::<
                    (Seq<char>, nat, nat),
                    Error,
                >(error),
            },
    {
        read_proposal(self.lookup(proposal_id))
    }

    /// The number of proposals created so far.
    pub fn total_proposals(&self) -> (total: u32)
        ensures
            total == self@.next_proposal_id,
    {
        self.next_proposal_id
    }

    /// Hands the waiting notifications to the host, oldest first, and keeps
    /// none of them.
    pub fn take_events(&mut self) -> (taken: Vec<Event>)
        requires
            old(self).wf(),
        ensures
            final(self).wf(),
            event_views(taken@) == old(self)@.events,
            final(self)@ == old(self)@.after_take_events(),
    {
        let mut taken: Vec<Event> = Vec::new();
        core::mem::swap(&mut self.events, &mut taken);
        proof {
            old(self)@.take_events_keeps_inv();
            assert(self@.events =~= Seq::empty());
        }
        taken
    }
}

} // verus!
