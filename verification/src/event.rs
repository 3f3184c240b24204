use vstd::prelude::*;

use crate::account::AccountId;

verus! {

/// Tells that a proposal was created.
#[derive(Debug, Clone, PartialEq, Eq)]
pub struct ProposalCreated {
    pub id: u32,
    pub title: String,
}

/// Tells that a vote was counted.
#[derive(Debug, Clone, PartialEq, Eq)]
pub struct VoteCast {
    pub proposalid: u32,
    pub voter: AccountId,
    pub state: bool,
}

/// A notification that the ledger hands to its host.
#[derive(Debug, Clone, PartialEq, Eq)]
pub enum Event {
    ProposalCreated(ProposalCreated),
    VoteCast(VoteCast),
}

/// What a notification says, as mathematics.
pub enum EventView {
    ProposalCreated { id: nat, title: Seq<char> },
    VoteCast { proposal_id: nat, voter: AccountId, support: bool },
}

impl View for Event {
    type V = EventView;

    open spec fn view(&self) -> EventView {
        match *self {
            Event::ProposalCreated(created) => EventView::ProposalCreated {
                id: created.id as nat,
                title: created.title@,
            },
            Event::VoteCast(cast) => EventView::VoteCast {
                proposal_id: cast.proposalid as nat,
                voter: cast.voter,
                support: cast.state,
            },
        }
    }
}

/// The views of a sequence of notifications, in the same order.
pub open spec fn event_views(events: Seq<Event>) -> Seq<EventView> {
    events.map_values(|event: Event| event@)
}

} // verus!
