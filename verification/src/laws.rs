//! What holds of the ledger whatever is asked of it.

use vstd::prelude::*;

use crate::account::AccountId;
use crate::error::Error;
use crate::history::Call;
use crate::model::LedgerView;
use crate::proposal::ProposalView;

verus! {

/// Every call leads from a state that `inv` admits to another one.
pub proof fn call_keeps_inv(state: LedgerView, call: Call)
    requires
        state.inv(),
    ensures
        state.after(call).inv(),
{
    match call {
        Call::CreateProposal { caller, title } => state.create_proposal_keeps_inv(caller, title),
        Call::Vote { caller, proposal_id, support } => state.vote_keeps_inv(
            caller,
            proposal_id,
            support,
        ),
        Call::TakeEvents => state.take_events_keeps_inv(),
    }
}

/// Calls, however many, lead from a state that `inv` admits to another one.
pub proof fn calls_keep_inv(state: LedgerView, calls: Seq<Call>)
    requires
        state.inv(),
    ensures
        state.after_all(calls).inv(),
    decreases calls.len(),
{
    if calls.len() > 0 {
        calls_keep_inv(state, calls.drop_last());
        call_keeps_inv(state.after_all(calls.drop_last()), calls.last());
    }
}

/// Every state that a ledger reaches from `new`, by whatever calls, is one
/// that `inv` admits.
pub proof fn every_reachable_state_is_admitted(owner: AccountId, calls: Seq<Call>)
    ensures
        LedgerView::init(owner).after_all(calls).inv(),
{
    LedgerView::init_keeps_inv(owner);
    calls_keep_inv(LedgerView::init(owner), calls);
}

/// Only the owner creates proposals: any other caller gets `NotOwner`, and
/// the ledger, with its count of proposals, stays as it was.
pub proof fn only_the_owner_creates(state: LedgerView, caller: AccountId, title: Seq<char>)
    requires
        caller != state.owner,
    ensures
        state.create_proposal_outcome(caller) == Err::<nat, Error>(Error::NotOwner),
        state.after_create_proposal(caller, title) == state,
        state.after_create_proposal(caller, title).next_proposal_id == state.next_proposal_id,
{
}

/// The counter of identifiers advances by one with each proposal that is
/// created, and with nothing else.
pub proof fn counter_counts_creations(state: LedgerView, calls: Seq<Call>)
    ensures
        state.after_all(calls).next_proposal_id == state.next_proposal_id + state.creations(
            calls,
        ),
    decreases calls.len(),
{
    if calls.len() > 0 {
        counter_counts_creations(state, calls.drop_last());
    }
}

/// Identifiers are given out in order, from zero: after any calls on a new
/// ledger, the count of proposals is the number of creations that succeeded,
/// and a creation that succeeds next returns that number. So the first
/// proposal gets 0, the second 1, and the n-th gets n - 1.
pub proof fn ids_are_given_in_order(owner: AccountId, calls: Seq<Call>, caller: AccountId)
    ensures
        ({
            let made = LedgerView::init(owner);
            let now = made.after_all(calls);
            &&& now.next_proposal_id == made.creations(calls)
            &&& now.create_proposal_outcome(caller) is Ok ==> now.create_proposal_outcome(caller)
                == Ok::<nat, Error>(made.creations(calls))
        }),
{
    counter_counts_creations(LedgerView::init(owner), calls);
}

/// The identifiers below the given one.
pub open spec fn ids_below(limit: nat) -> Set<nat> {
    Set::new(|id: nat| id < limit)
}

/// There are as many identifiers below a number as the number says.
proof fn ids_below_are_counted(limit: nat)
    ensures
        ids_below(limit).finite(),
        ids_below(limit).len() == limit,
    decreases limit,
{
    if limit == 0 {
        assert(ids_below(limit) =~= Set::<nat>::empty());
    } else {
        let last = (limit - 1) as nat;
        ids_below_are_counted(last);
        assert(ids_below(limit) =~= ids_below(last).insert(last));
    }
}

/// The count of proposals is the number of proposals that the ledger holds,
/// and they are the ones with the identifiers below it.
pub proof fn count_is_the_number_of_proposals(state: LedgerView)
    requires
        state.inv(),
    ensures
        state.proposals.dom() == ids_below(state.next_proposal_id),
        state.proposals.dom().finite(),
        state.proposals.dom().len() == state.next_proposal_id,
{
    ids_below_are_counted(state.next_proposal_id);
}

/// No call undoes anything. The owner stays; the counter of identifiers does
/// not go down; a proposal that is stored stays stored, under the same
/// identifier and title, and neither of its counters goes down; a vote that
/// is on record stays on record, with the same support.
pub proof fn nothing_is_undone(state: LedgerView, call: Call)
    requires
        state.inv(),
    ensures
        ({
            let after = state.after(call);
            &&& after.owner == state.owner
            &&& after.next_proposal_id >= state.next_proposal_id
            &&& forall|id: nat| #[trigger]
                state.proposals.contains_key(id) ==> {
                    &&& after.proposals.contains_key(id)
                    &&& after.proposals[id].id == state.proposals[id].id
                    &&& after.proposals[id].title == state.proposals[id].title
                    &&& after.proposals[id].votes_for >= state.proposals[id].votes_for
                    &&& after.proposals[id].votes_against >= state.proposals[id].votes_against
                }
            &&& forall|id: nat, voter: AccountId| #[trigger]
                state.ballots.contains_key((id, voter)) ==> {
                    &&& after.ballots.contains_key((id, voter))
                    &&& after.ballots[(id, voter)] == state.ballots[(id, voter)]
                }
        }),
{
}

/// A vote that succeeds puts the voter on record, so that the voter's next
/// vote on the same proposal is refused.
pub proof fn vote_is_put_on_record(
    state: LedgerView,
    voter: AccountId,
    proposal_id: nat,
    support: bool,
)
    requires
        state.vote_outcome(voter, proposal_id, support) is Ok,
    ensures
        !state.has_voted(proposal_id, voter),
        state.after_vote(voter, proposal_id, support).has_voted(proposal_id, voter),
        state.after_vote(voter, proposal_id, support).ballots[(proposal_id, voter)] == support,
{
}

/// A vote that is on record is still on record after any further calls.
pub proof fn vote_stays_on_record(
    state: LedgerView,
    calls: Seq<Call>,
    proposal_id: nat,
    voter: AccountId,
)
    requires
        state.inv(),
        state.has_voted(proposal_id, voter),
    ensures
        state.after_all(calls).has_voted(proposal_id, voter),
    decreases calls.len(),
{
    if calls.len() > 0 {
        vote_stays_on_record(state, calls.drop_last(), proposal_id, voter);
        calls_keep_inv(state, calls.drop_last());
        nothing_is_undone(state.after_all(calls.drop_last()), calls.last());
    }
}

/// Nobody votes twice on one proposal. Once a vote of a voter on a proposal
/// is on record, every later vote of that voter on that proposal is refused
/// with `AlreadyVoted`, whichever way it goes and whatever was called in
/// between, and it leaves the ledger, with both counters, as it was.
pub proof fn second_vote_is_refused(
    state: LedgerView,
    calls: Seq<Call>,
    voter: AccountId,
    proposal_id: nat,
    support: bool,
)
    requires
        state.inv(),
        state.has_voted(proposal_id, voter),
    ensures
        ({
            let later = state.after_all(calls);
            &&& later.vote_outcome(voter, proposal_id, support) == Err::<ProposalView, Error>(
                Error::AlreadyVoted,
            )
            &&& later.after_vote(voter, proposal_id, support) == later
        }),
{
    vote_stays_on_record(state, calls, proposal_id, voter);
    calls_keep_inv(state, calls);
}

/// The votes on record in a ledger are exactly the votes that it has
/// counted: a voter is on record for a proposal with a given support exactly
/// if one of the calls since `new` was a vote of that voter on that proposal
/// with that support, and succeeded.
pub proof fn record_holds_the_counted_votes(
    owner: AccountId,
    calls: Seq<Call>,
    proposal_id: nat,
    support: bool,
)
    ensures
        LedgerView::init(owner).after_all(calls).voters(proposal_id, support)
            == LedgerView::init(owner).counted_voters(calls, proposal_id, support),
    decreases calls.len(),
{
    let made = LedgerView::init(owner);
    let now = made.after_all(calls);
    let on_record = now.voters(proposal_id, support);
    let counted = made.counted_voters(calls, proposal_id, support);
    if calls.len() > 0 {
        let earlier = calls.drop_last();
        let before = made.after_all(earlier);
        record_holds_the_counted_votes(owner, earlier, proposal_id, support);
        every_reachable_state_is_admitted(owner, earlier);
        nothing_is_undone(before, calls.last());
        assert forall|voter: AccountId| on_record.contains(voter) implies counted.contains(
            voter,
        ) by {
            if before.voters(proposal_id, support).contains(voter) {
                let k = choose|k: int|
                    0 <= k < earlier.len() && #[trigger] earlier[k] == (Call::Vote {
                        caller: voter,
                        proposal_id,
                        support,
                    }) && made.after_all(earlier.take(k)).accepts(earlier[k]);
                assert(earlier.take(k) =~= calls.take(k));
            }
        }
        assert forall|voter: AccountId| counted.contains(voter) implies on_record.contains(
            voter,
        ) by {
            let k = choose|k: int|
                0 <= k < calls.len() && #[trigger] calls[k] == (Call::Vote {
                    caller: voter,
                    proposal_id,
                    support,
                }) && made.after_all(calls.take(k)).accepts(calls[k]);
            if k < calls.len() - 1 {
                assert(earlier.take(k) =~= calls.take(k));
                assert(earlier[k] == calls[k]);
                assert(made.counted_voters(earlier, proposal_id, support).contains(voter));
            }
        }
    }
}

/// The counters are right. After any calls on a new ledger, the votes for a
/// proposal number as many as the distinct voters whose vote for it was
/// counted, and the votes against it as many as the distinct voters whose
/// vote against it was counted.
pub proof fn tallies_count_the_voters(owner: AccountId, calls: Seq<Call>, proposal_id: nat)
    ensures
        ({
            let made = LedgerView::init(owner);
            let now = made.after_all(calls);
            now.proposals.contains_key(proposal_id) ==> {
                &&& made.counted_voters(calls, proposal_id, true).finite()
                &&& made.counted_voters(calls, proposal_id, false).finite()
                &&& now.proposals[proposal_id].votes_for == made.counted_voters(
                    calls,
                    proposal_id,
                    true,
                ).len()
                &&& now.proposals[proposal_id].votes_against == made.counted_voters(
                    calls,
                    proposal_id,
                    false,
                ).len()
            }
        }),
{
    every_reachable_state_is_admitted(owner, calls);
    record_holds_the_counted_votes(owner, calls, proposal_id, true);
    record_holds_the_counted_votes(owner, calls, proposal_id, false);
    let now = LedgerView::init(owner).after_all(calls);
    if now.proposals.contains_key(proposal_id) {
        assert(now.tally_is_right(proposal_id, true));
        assert(now.tally_is_right(proposal_id, false));
    }
}

/// An identifier that no proposal has been given yet is not found, neither by
/// `vote` nor by `get_proposal`.
pub proof fn unassigned_id_is_not_found(
    state: LedgerView,
    caller: AccountId,
    proposal_id: nat,
    support: bool,
)
    requires
        state.inv(),
        proposal_id >= state.next_proposal_id,
    ensures
        state.vote_outcome(caller, proposal_id, support) == Err::<ProposalView, Error>(
            Error::ProposalNotFound,
        ),
        state.after_vote(caller, proposal_id, support) == state,
        state.get_proposal_outcome(proposal_id) == Err::<(Seq<char>, nat, nat), Error>(
            Error::ProposalNotFound,
        ),
{
}

/// A call that fails changes nothing: the proposals, the votes on record and
/// the counter of identifiers are afterwards what they were before, and no
/// notification is added.
pub proof fn failed_call_changes_nothing(state: LedgerView, call: Call)
    requires
        !state.accepts(call),
    ensures
        state.after(call) == state,
{
}

} // verus!
