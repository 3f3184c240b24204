use vstd::prelude::*;

use crate::error::Error;

verus! {

/// What a proposal is, as mathematics: its identifier, its title, and the
/// votes counted for and against it.
pub struct ProposalView {
    pub id: nat,
    pub title: Seq<char>,
    pub votes_for: nat,
    pub votes_against: nat,
}

impl ProposalView {
    /// A proposal on which nobody has voted yet.
    pub open spec fn fresh(id: nat, title: Seq<char>) -> ProposalView {
        ProposalView { id, title, votes_for: 0, votes_against: 0 }
    }

    /// The counter that a vote with the given support advances.
    pub open spec fn tally(self, support: bool) -> nat {
        if support {
            self.votes_for
        } else {
            self.votes_against
        }
    }

    /// Whether the counter for the given support can still advance within
    /// thirty-two bits.
    pub open spec fn has_room(self, support: bool) -> bool {
        self.tally(support) < u32::MAX
    }

    /// The proposal after one more vote: the counter for the given support is
    /// one higher, and nothing else differs.
    pub open spec fn with_vote(self, support: bool) -> ProposalView {
        if support {
            ProposalView { votes_for: self.votes_for + 1, ..self }
        } else {
            ProposalView { votes_against: self.votes_against + 1, ..self }
        }
    }

    /// Whether the identifier and both counters fit in thirty-two bits.
    pub open spec fn fits(self) -> bool {
        &&& self.id <= u32::MAX
        &&& self.votes_for <= u32::MAX
        &&& self.votes_against <= u32::MAX
    }
}

/// A proposal: a title under a sequential identifier, with two vote counters.
#[derive(Debug, Clone, PartialEq, Eq)]
pub struct Proposal {
    id: u32,
    title: String,
    votes_for: u32,
    votes_against: u32,
}

impl View for Proposal {
    type V = ProposalView;

    closed spec fn view(&self) -> ProposalView {
        ProposalView {
            id: self.id as nat,
            title: self.title@,
            votes_for: self.votes_for as nat,
            votes_against: self.votes_against as nat,
        }
    }
}

impl Proposal {
    /// A new proposal with both counters at zero.
    pub fn new(id: u32, title: String) -> (proposal: Proposal)
        ensures
            proposal@ == ProposalView::fresh(id as nat, title@),
    {
        Proposal { id, title, votes_for: 0, votes_against: 0 }
    }

    /// A proposal that consists of the given parts.
    pub fn from_parts(id: u32, title: String, votes_for: u32, votes_against: u32) -> (proposal:
        Proposal)
        ensures
            proposal@ == (ProposalView {
                id: id as nat,
                title: title@,
                votes_for: votes_for as nat,
                votes_against: votes_against as nat,
            }),
    {
        Proposal { id, title, votes_for, votes_against }
    }

    /// The identifier of this proposal.
    pub fn id(&self) -> (id: u32)
        ensures
            id == self@.id,
    {
        self.id
    }

    /// The title of this proposal.
    pub fn title(&self) -> (title: &String)
        ensures
            title@ == self@.title,
    {
        &self.title
    }

    /// The number of votes counted for this proposal.
    pub fn votes_for(&self) -> (count: u32)
        ensures
            count == self@.votes_for,
    {
        self.votes_for
    }

    /// The number of votes counted against this proposal.
    pub fn votes_against(&self) -> (count: u32)
        ensures
            count == self@.votes_against,
    {
        self.votes_against
    }

    /// This proposal with one more vote counted. The counter for the given
    /// support advances by one; where it already stands at the largest
    /// thirty-two bit value, the vote is refused with `Overflow`.
    pub fn with_vote(&self, support: bool) -> (counted: Result<Proposal, Error>)
        ensures
            match counted {
                Ok(proposal) => self@.has_room(support) && proposal@ == self@.with_vote(support),
                Err(error) => !self@.has_room(support) && error == Error::Overflow,
            },
    {
        let mut votes_for = self.votes_for;
        let mut votes_against = self.votes_against;
        if support {
            match votes_for.checked_add(1) {
                Some(count) => {
                    votes_for = count;
                },
                None => {
                    return Err(Error::Overflow);
                },
            }
        } else {
            match votes_against.checked_add(1) {
                Some(count) => {
                    votes_against = count;
                },
                None => {
                    return Err(Error::Overflow);
                },
            }
        }
        Ok(Proposal { id: self.id, title: self.title.clone(), votes_for, votes_against })
    }
}

} // verus!
