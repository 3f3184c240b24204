//! The ledger as mathematics: its state, and what each operation makes of it.

use vstd::prelude::*;

use crate::account::AccountId;
use crate::error::Error;
use crate::event::EventView;
use crate::proposal::ProposalView;
use crate::rules::{decide_creation, decide_reading, decide_vote};

verus! {

/// The state of a ledger.
pub struct LedgerView {
    /// The identity that may create proposals.
    pub owner: AccountId,
    /// The proposals created so far, by identifier.
    pub proposals: Map<nat, ProposalView>,
    /// The votes counted so far: who voted on which proposal, and with which
    /// support. A pair of proposal and voter is a key exactly if that voter
    /// has voted on that proposal.
    pub ballots: Map<(nat, AccountId), bool>,
    /// The identifier that the next proposal gets.
    pub next_proposal_id: nat,
    /// The notifications that wait for the host, oldest first.
    pub events: Seq<EventView>,
}

impl LedgerView {
    /// The state of a ledger that was just made for the given owner.
    pub open spec fn init(owner: AccountId) -> LedgerView {
        LedgerView {
            owner,
            proposals: Map::empty(),
            ballots: Map::empty(),
            next_proposal_id: 0,
            events: Seq::empty(),
        }
    }

    /// The proposal stored under the given identifier, if there is one.
    pub open spec fn stored(self, proposal_id: nat) -> Option<ProposalView> {
        if self.proposals.contains_key(proposal_id) {
            Some(self.proposals[proposal_id])
        } else {
            None
        }
    }

    /// Whether the given voter has voted on the given proposal.
    pub open spec fn has_voted(self, proposal_id: nat, voter: AccountId) -> bool {
        self.ballots.contains_key((proposal_id, voter))
    }

    /// Those who have voted on the given proposal with the given support.
    pub open spec fn voters(self, proposal_id: nat, support: bool) -> Set<AccountId> {
        Set::new(
            |voter: AccountId|
                self.ballots.contains_key((proposal_id, voter)) && self.ballots[(
                    proposal_id,
                    voter,
                )] == support,
        )
    }

    /// What `create_proposal` returns to the given caller: the new identifier,
    /// or the reason for which nothing is created.
    pub open spec fn create_proposal_outcome(self, caller: AccountId) -> Result<nat, Error> {
        decide_creation(self.owner, caller, self.next_proposal_id)
    }

    /// The state after `create_proposal`. On success the new proposal is
    /// stored, the counter of identifiers is one higher, and one notification
    /// is added. On failure nothing differs.
    pub open spec fn after_create_proposal(self, caller: AccountId, title: Seq<char>)
        -> LedgerView {
        match self.create_proposal_outcome(caller) {
            Ok(id) => LedgerView {
                proposals: self.proposals.insert(id, ProposalView::fresh(id, title)),
                next_proposal_id: id + 1,
                events: self.events.push(EventView::ProposalCreated { id, title }),
                ..self
            },
            Err(_) => self,
        }
    }

    /// What `vote` decides for the given caller: the proposal with the vote
    /// counted, or the reason for which nothing is counted.
    pub open spec fn vote_outcome(self, caller: AccountId, proposal_id: nat, support: bool)
        -> Result<ProposalView, Error> {
        decide_vote(self.stored(proposal_id), self.has_voted(proposal_id, caller), support)
    }

    /// The state after `vote`. On success the proposal is stored with the vote
    /// counted, the vote is recorded, and one notification is added. On
    /// failure nothing differs.
    pub open spec fn after_vote(self, caller: AccountId, proposal_id: nat, support: bool)
        -> LedgerView {
        match self.vote_outcome(caller, proposal_id, support) {
            Ok(counted) => LedgerView {
                proposals: self.proposals.insert(proposal_id, counted),
                ballots: self.ballots.insert((proposal_id, caller), support),
                events: self.events.push(
                    EventView::VoteCast { proposal_id, voter: caller, support },
                ),
                ..self
            },
            Err(_) => self,
        }
    }

    /// What `get_proposal` returns: the title and the two counters of the
    /// proposal, or `ProposalNotFound`.
    pub open spec fn get_proposal_outcome(self, proposal_id: nat) -> Result<
        (Seq<char>, nat, nat),
        Error,
    > {
        decide_reading(self.stored(proposal_id))
    }

    /// The state after the host has taken the waiting notifications: none
    /// waits any more, and nothing else differs.
    pub open spec fn after_take_events(self) -> LedgerView {
        LedgerView { events: Seq::empty(), ..self }
    }

    /// Whether the counter of the given proposal for the given support says
    /// how many have voted on it with that support.
    pub open spec fn tally_is_right(self, proposal_id: nat, support: bool) -> bool {
        &&& self.voters(proposal_id, support).finite()
        &&& self.proposals[proposal_id].tally(support) == self.voters(proposal_id, support).len()
    }

    /// What holds of every state that a ledger can reach. The identifiers in
    /// use are exactly those below the counter; each proposal is stored under
    /// its own identifier; votes are recorded on existing proposals only; and
    /// each counter of a proposal equals the number of those who voted on it
    /// with that support.
    pub open spec fn inv(self) -> bool {
        &&& self.next_proposal_id <= u32::MAX
        &&& forall|id: nat| #[trigger]
            self.proposals.contains_key(id) <==> id < self.next_proposal_id
        &&& forall|id: nat| #[trigger]
            self.proposals.contains_key(id) ==> self.proposals[id].id == id
                && self.proposals[id].fits()
        &&& forall|id: nat, voter: AccountId| #[trigger]
            self.ballots.contains_key((id, voter)) ==> self.proposals.contains_key(id)
        &&& forall|id: nat, support: bool|
            self.proposals.contains_key(id) ==> #[trigger] self.tally_is_right(id, support)
    }

    /// A ledger that was just made is in a state that `inv` admits.
    pub proof fn init_keeps_inv(owner: AccountId)
        ensures
            LedgerView::init(owner).inv(),
    {
    }

    /// `create_proposal` leads from a state that `inv` admits to another one,
    /// whoever calls it and whatever it returns.
    pub proof fn create_proposal_keeps_inv(self, caller: AccountId, title: Seq<char>)
        requires
            self.inv(),
        ensures
            self.after_create_proposal(caller, title).inv(),
    {
        let after = self.after_create_proposal(caller, title);
        if self.create_proposal_outcome(caller) is Ok {
            assert forall|id: nat, support: bool|
                after.proposals.contains_key(id) implies #[trigger] after.tally_is_right(
                id,
                support,
            ) by {
                if id == self.next_proposal_id {
                    // Nobody has voted on the new proposal.
                    assert(self.voters(id, support) =~= Set::<AccountId>::empty());
                } else {
                    assert(self.tally_is_right(id, support));
                }
            }
        }
    }

    /// `vote` leads from a state that `inv` admits to another one, whoever
    /// calls it and whatever it returns.
    pub proof fn vote_keeps_inv(self, caller: AccountId, proposal_id: nat, support: bool)
        requires
            self.inv(),
        ensures
            self.after_vote(caller, proposal_id, support).inv(),
    {
        let after = self.after_vote(caller, proposal_id, support);
        if self.vote_outcome(caller, proposal_id, support) is Ok {
            assert forall|id: nat, side: bool|
                after.proposals.contains_key(id) implies #[trigger] after.tally_is_right(
                id,
                side,
            ) by {
                assert(self.tally_is_right(id, side));
                if id == proposal_id && side == support {
                    // The caller is one voter more on this side.
                    assert(after.voters(id, side) =~= self.voters(id, side).insert(caller));
                } else {
                    assert(after.voters(id, side) =~= self.voters(id, side));
                }
            }
        }
    }

    /// Taking the waiting notifications leads from a state that `inv` admits
    /// to another one.
    pub proof fn take_events_keeps_inv(self)
        requires
            self.inv(),
        ensures
            self.after_take_events().inv(),
    {
        let after = self.after_take_events();
        assert forall|id: nat, support: bool|
            after.proposals.contains_key(id) implies #[trigger] after.tally_is_right(
            id,
            support,
        ) by {
            assert(self.tally_is_right(id, support));
        }
    }
}

} // verus!
