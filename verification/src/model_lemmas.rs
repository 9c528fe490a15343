//! Facts about the lookup and counting functions of the model: what a lookup
//! result says about the sequence, and how counts move under `push` and
//! `update`.

use vstd::prelude::*;

use crate::model::{
    count_where, find_commitment, find_governance, find_proposal, find_user, CommitmentView,
    GovernanceView, ProposalView, UserView,
};

verus! {

/// A governance lookup returns the first match, and `None` only when there is
/// no match at all.
pub proof fn lemma_find_governance(govs: Seq<GovernanceView>, name: Seq<char>)
    ensures
        match find_governance(govs, name) {
            Some(i) => 0 <= i < govs.len() && govs[i].name == name && (forall|j: int|
                0 <= j < i ==> (#[trigger] govs[j]).name != name),
            None => forall|j: int| 0 <= j < govs.len() ==> (#[trigger] govs[j]).name != name,
        },
    decreases govs.len(),
{
    if govs.len() > 0 && govs.first().name != name {
        let rest = govs.drop_first();
        lemma_find_governance(rest, name);
        assert(forall|j: int| 1 <= j < govs.len() ==> #[trigger] govs[j] == rest[j - 1]);
    }
}

/// A member lookup returns the first match, and `None` only when there is no
/// match at all.
pub proof fn lemma_find_user(users: Seq<UserView>, governance: Seq<char>, owner: Seq<char>)
    ensures
        match find_user(users, governance, owner) {
            Some(i) => 0 <= i < users.len() && users[i].governance == governance && users[i].owner
                == owner && (forall|j: int|
                0 <= j < i ==> !((#[trigger] users[j]).governance == governance && users[j].owner
                    == owner)),
            None => forall|j: int|
                0 <= j < users.len() ==> !((#[trigger] users[j]).governance == governance
                    && users[j].owner == owner),
        },
    decreases users.len(),
{
    if users.len() > 0 && !(users.first().governance == governance && users.first().owner
        == owner) {
        let rest = users.drop_first();
        lemma_find_user(rest, governance, owner);
        assert(forall|j: int| 1 <= j < users.len() ==> #[trigger] users[j] == rest[j - 1]);
    }
}

/// A proposal lookup returns the first match, and `None` only when there is
/// no match at all.
pub proof fn lemma_find_proposal(
    proposals: Seq<ProposalView>,
    governance: Seq<char>,
    title: Seq<char>,
)
    ensures
        match find_proposal(proposals, governance, title) {
            Some(i) => 0 <= i < proposals.len() && proposals[i].governance == governance
                && proposals[i].title == title && (forall|j: int|
                0 <= j < i ==> !((#[trigger] proposals[j]).governance == governance
                    && proposals[j].title == title)),
            None => forall|j: int|
                0 <= j < proposals.len() ==> !((#[trigger] proposals[j]).governance == governance
                    && proposals[j].title == title),
        },
    decreases proposals.len(),
{
    if proposals.len() > 0 && !(proposals.first().governance == governance
        && proposals.first().title == title) {
        let rest = proposals.drop_first();
        lemma_find_proposal(rest, governance, title);
        assert(forall|j: int| 1 <= j < proposals.len() ==> #[trigger] proposals[j] == rest[j - 1]);
    }
}

/// A commitment lookup returns the first match, and `None` only when there is
/// no match at all.
pub proof fn lemma_find_commitment(
    commitments: Seq<CommitmentView>,
    governance: Seq<char>,
    title: Seq<char>,
    voter: Seq<char>,
)
    ensures
        match find_commitment(commitments, governance, title, voter) {
            Some(i) => 0 <= i < commitments.len() && commitments[i].governance == governance
                && commitments[i].title == title && commitments[i].voter == voter && (forall|j: int|
                0 <= j < i ==> !((#[trigger] commitments[j]).governance == governance
                    && commitments[j].title == title && commitments[j].voter == voter)),
            None => forall|j: int|
                0 <= j < commitments.len() ==> !((#[trigger] commitments[j]).governance
                    == governance && commitments[j].title == title && commitments[j].voter
                    == voter),
        },
    decreases commitments.len(),
{
    if commitments.len() > 0 && !(commitments.first().governance == governance
        && commitments.first().title == title && commitments.first().voter == voter) {
        let rest = commitments.drop_first();
        lemma_find_commitment(rest, governance, title, voter);
        assert(forall|j: int| 1 <= j < commitments.len() ==> #[trigger] commitments[j] == rest[j
            - 1]);
    }
}

/// A count never exceeds the sequence's length.
pub proof fn lemma_count_le_len(commitments: Seq<CommitmentView>, p: spec_fn(CommitmentView) -> bool)
    ensures
        count_where(commitments, p) <= commitments.len(),
    decreases commitments.len(),
{
    if commitments.len() > 0 {
        lemma_count_le_len(commitments.drop_first(), p);
    }
}

/// A count is strictly below the length when some element does not satisfy
/// the predicate.
pub proof fn lemma_count_lt_len(
    commitments: Seq<CommitmentView>,
    p: spec_fn(CommitmentView) -> bool,
    j: int,
)
    requires
        0 <= j < commitments.len(),
        !p(commitments[j]),
    ensures
        count_where(commitments, p) < commitments.len(),
    decreases commitments.len(),
{
    if j == 0 {
        lemma_count_le_len(commitments.drop_first(), p);
    } else {
        lemma_count_lt_len(commitments.drop_first(), p, j - 1);
    }
}

/// When no element satisfies the predicate, the count is zero.
pub proof fn lemma_count_zero(commitments: Seq<CommitmentView>, p: spec_fn(CommitmentView) -> bool)
    requires
        forall|j: int| 0 <= j < commitments.len() ==> !p(#[trigger] commitments[j]),
    ensures
        count_where(commitments, p) == 0,
    decreases commitments.len(),
{
    if commitments.len() > 0 {
        assert(commitments[0] == commitments.first());
        lemma_count_zero(commitments.drop_first(), p);
    }
}

/// Appending an element adds one to the count exactly when the element
/// satisfies the predicate.
pub proof fn lemma_count_push(
    commitments: Seq<CommitmentView>,
    p: spec_fn(CommitmentView) -> bool,
    c: CommitmentView,
)
    ensures
        count_where(commitments.push(c), p) == count_where(commitments, p) + (if p(c) {
            1int
        } else {
            0int
        }),
    decreases commitments.len(),
{
    let pushed = commitments.push(c);
    assert(pushed.len() == commitments.len() + 1);
    assert(count_where(pushed, p) == (if p(pushed.first()) {
        1nat
    } else {
        0nat
    }) + count_where(pushed.drop_first(), p));
    if commitments.len() == 0 {
        assert(pushed.first() == c);
        assert(pushed.drop_first() =~= Seq::<CommitmentView>::empty());
        assert(count_where(pushed.drop_first(), p) == 0);
    } else {
        assert(pushed.first() == commitments.first());
        assert(pushed.drop_first() =~= commitments.drop_first().push(c));
        lemma_count_push(commitments.drop_first(), p, c);
    }
}

/// A count under a stronger predicate never exceeds one under a weaker.
pub proof fn lemma_count_implies(
    commitments: Seq<CommitmentView>,
    p: spec_fn(CommitmentView) -> bool,
    q: spec_fn(CommitmentView) -> bool,
)
    requires
        forall|c: CommitmentView| #[trigger] p(c) ==> q(c),
    ensures
        count_where(commitments, p) <= count_where(commitments, q),
    decreases commitments.len(),
{
    if commitments.len() > 0 {
        lemma_count_implies(commitments.drop_first(), p, q);
    }
}

/// Replacing the element at an index moves the count by the difference
/// between the new and the old element's satisfaction of the predicate.
pub proof fn lemma_count_update(
    commitments: Seq<CommitmentView>,
    p: spec_fn(CommitmentView) -> bool,
    i: int,
    c: CommitmentView,
)
    requires
        0 <= i < commitments.len(),
    ensures
        count_where(commitments.update(i, c), p) == count_where(commitments, p) - (if p(
            commitments[i],
        ) {
            1int
        } else {
            0int
        }) + (if p(c) {
            1int
        } else {
            0int
        }),
    decreases commitments.len(),
{
    if i == 0 {
        assert(commitments.update(0, c).drop_first() =~= commitments.drop_first());
        assert(commitments.update(0, c).first() == c);
    } else {
        assert(commitments.update(i, c).drop_first() =~= commitments.drop_first().update(
            i - 1,
            c,
        ));
        assert(commitments.update(i, c).first() == commitments.first());
        lemma_count_update(commitments.drop_first(), p, i - 1, c);
    }
}

} // verus!
