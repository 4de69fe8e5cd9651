//! Properties of every reachable contract state and of every sequence of
//! operations, proved from the operations' contracts.
use vstd::prelude::*;
use crate::contract::{ForMyFuture, proposal_kept, steps_to};
use crate::funding::reclaimable_at;
use crate::records::ProposalStatus;

verus! {

/// A proposal never holds more than its goal.
pub proof fn lemma_funds_within_goal(c: ForMyFuture, proposal_id: i128)
    requires
        c.wf(),
        c.has_proposal(proposal_id),
    ensures
        c.proposal(proposal_id).funds <= c.proposal(proposal_id).amount_needed,
{
    assert(c.proposal_wf(proposal_id - 1));
}

/// No account owns two open proposals at once, and the owner of an open
/// proposal is marked as having one.
pub proof fn lemma_one_open_proposal(c: ForMyFuture, id1: i128, id2: i128)
    requires
        c.wf(),
        c.has_proposal(id1),
        c.has_proposal(id2),
        c.proposal(id1).status == ProposalStatus::Open,
        c.proposal(id2).status == ProposalStatus::Open,
        c.proposal(id1).user@ == c.proposal(id2).user@,
    ensures
        id1 == id2,
        c.is_active(c.proposal(id1).user@),
{
    assert(c.proposal_wf(id1 - 1));
    let ps = c.proposal_list();
    assert(ps[id1 - 1].status == ProposalStatus::Open && ps[id2 - 1].status == ProposalStatus::Open);
}

/// The stored eligibility flag always agrees with the funded percentage.
pub proof fn lemma_flag_matches_percentage(c: ForMyFuture, proposal_id: i128)
    requires
        c.wf(),
        c.has_proposal(proposal_id),
    ensures
        c.proposal(proposal_id).is_reclaimable == reclaimable_at(
            c.proposal(proposal_id).funds as int,
            c.proposal(proposal_id).amount_needed as int,
        ),
{
    assert(c.proposal_wf(proposal_id - 1));
}

/// Any number of operations in a row is again a step.
pub proof fn lemma_steps_compose(a: ForMyFuture, b: ForMyFuture, c: ForMyFuture)
    requires
        steps_to(a, b),
        steps_to(b, c),
    ensures
        steps_to(a, c),
{
    assert forall|i: int| 0 <= i < a.proposal_list().len()
        implies proposal_kept(#[trigger] a.proposal_list()[i], c.proposal_list()[i]) by {
        assert(proposal_kept(a.proposal_list()[i], b.proposal_list()[i]));
        assert(proposal_kept(b.proposal_list()[i], c.proposal_list()[i]));
    }
    assert forall|k: int| 0 <= k < a.contribution_list().len()
        implies #[trigger] a.contribution_list()[k] == c.contribution_list()[k] by {
        assert(a.contribution_list()[k] == b.contribution_list()[k]);
        assert(b.contribution_list()[k] == c.contribution_list()[k]);
    }
}

/// Once a proposal is eligible for reclaim it stays eligible in every later
/// state, and a proposal that is still open later was open before.
pub proof fn lemma_reclaimable_persists(a: ForMyFuture, b: ForMyFuture, proposal_id: i128)
    requires
        steps_to(a, b),
        a.has_proposal(proposal_id),
        a.proposal(proposal_id).is_reclaimable,
    ensures
        b.has_proposal(proposal_id),
        b.proposal(proposal_id).is_reclaimable,
        b.proposal(proposal_id).status == ProposalStatus::Open
            ==> a.proposal(proposal_id).status == ProposalStatus::Open,
{
    assert(proposal_kept(a.proposal_list()[proposal_id - 1], b.proposal_list()[proposal_id - 1]));
}

/// Contribution ids and proposal ids grow strictly with their position.
pub proof fn lemma_ids_increasing(c: ForMyFuture, i: int, j: int)
    requires
        c.wf(),
        0 <= i < j,
    ensures
        j < c.proposal_list().len() ==> c.proposal_list()[i].index < c.proposal_list()[j].index,
        j < c.contribution_list().len() ==> c.contribution_list()[i].contribution_id
            < c.contribution_list()[j].contribution_id,
{
    if j < c.proposal_list().len() {
        assert(c.proposal_wf(i) && c.proposal_wf(j));
    }
    if j < c.contribution_list().len() {
        assert(c.contribution_wf(i) && c.contribution_wf(j));
    }
}

/// An id given out in a later state is larger than every id of an earlier
/// one, so none is given twice; earlier ids keep their records.
pub proof fn lemma_ids_never_reused(a: ForMyFuture, b: ForMyFuture, i: int, j: int)
    requires
        a.wf(),
        b.wf(),
        steps_to(a, b),
        0 <= i,
    ensures
        i < a.proposal_list().len() <= j < b.proposal_list().len()
            ==> a.proposal_list()[i].index < b.proposal_list()[j].index,
        i < a.contribution_list().len() <= j < b.contribution_list().len()
            ==> a.contribution_list()[i].contribution_id < b.contribution_list()[j].contribution_id,
        i < a.proposal_list().len() ==> b.proposal_list()[i].index == a.proposal_list()[i].index,
        i < a.contribution_list().len() ==> b.contribution_list()[i] == a.contribution_list()[i],
{
    if i < a.proposal_list().len() {
        assert(a.proposal_wf(i));
        assert(proposal_kept(a.proposal_list()[i], b.proposal_list()[i]));
        if a.proposal_list().len() <= j < b.proposal_list().len() {
            assert(b.proposal_wf(j));
        }
    }
    if i < a.contribution_list().len() {
        assert(a.contribution_wf(i));
        assert(a.contribution_list()[i] == b.contribution_list()[i]);
        if a.contribution_list().len() <= j < b.contribution_list().len() {
            assert(b.contribution_wf(j));
        }
    }
}

} // verus!
