//! Sequences of calls, and the states that they lead to.

use vstd::prelude::*;

use crate::account::AccountId;
use crate::model::LedgerView;

verus! {

/// One call of an operation that can change the ledger.
pub enum Call {
    CreateProposal { caller: AccountId, title: Seq<char> },
    Vote { caller: AccountId, proposal_id: nat, support: bool },
    TakeEvents,
}

impl LedgerView {
    /// Whether the given call succeeds in this state.
    pub open spec fn accepts(self, call: Call) -> bool {
        match call {
            Call::CreateProposal { caller, title } => self.create_proposal_outcome(caller) is Ok,
            Call::Vote { caller, proposal_id, support } => self.vote_outcome(
                caller,
                proposal_id,
                support,
            ) is Ok,
            Call::TakeEvents => true,
        }
    }

    /// The state after the given call.
    pub open spec fn after(self, call: Call) -> LedgerView {
        match call {
            Call::CreateProposal { caller, title } => self.after_create_proposal(caller, title),
            Call::Vote { caller, proposal_id, support } => self.after_vote(
                caller,
                proposal_id,
                support,
            ),
            Call::TakeEvents => self.after_take_events(),
        }
    }

    /// The state after the given calls, made in their order.
    pub open spec fn after_all(self, calls: Seq<Call>) -> LedgerView
        decreases calls.len(),
    {
        if calls.len() == 0 {
            self
        } else {
            self.after_all(calls.drop_last()).after(calls.last())
        }
    }

    /// How many of the given calls, made in their order from this state,
    /// create a proposal.
    pub open spec fn creations(self, calls: Seq<Call>) -> nat
        decreases calls.len(),
    {
        if calls.len() == 0 {
            0
        } else {
            let earlier = calls.drop_last();
            let counted: nat = if calls.last() is CreateProposal && self.after_all(
                earlier,
            ).accepts(calls.last()) {
                1
            } else {
                0
            };
            self.creations(earlier) + counted
        }
    }

    /// Those whose vote on the given proposal, with the given support, is
    /// counted when the given calls are made in their order from this state.
    pub open spec fn counted_voters(self, calls: Seq<Call>, proposal_id: nat, support: bool)
        -> Set<AccountId> {
        Set::new(
            |voter: AccountId|
                exists|k: int|
                    0 <= k < calls.len() && #[trigger] calls[k] == (Call::Vote {
                        caller: voter,
                        proposal_id,
                        support,
                    }) && self.after_all(calls.take(k)).accepts(calls[k]),
        )
    }
}

} // verus!
