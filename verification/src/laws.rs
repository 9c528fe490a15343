//! The laws of the protocol, proved over the transition functions of
//! [`crate::model`]. Each executable operation of
//! [`crate::system::VotingSystem`] is tied to its transition by its own
//! contract, so these laws carry over to the executable store.

use vstd::prelude::*;

use crate::commitment::commitment_of;
use crate::errors::VotingErrorCode;
use crate::model::{
    commit_vote_t, committed_on, count_where, create_governance_t, find_commitment,
    find_governance, find_proposal, find_user, join_t, reveal_vote_t, revealed_on, start_vote_t,
    wf, SystemView,
};
use crate::model_lemmas::{
    lemma_count_implies, lemma_find_commitment, lemma_find_governance, lemma_find_proposal,
    lemma_find_user,
};

verus! {

/// Uniqueness of governance names: once `create_governance` has accepted a
/// name, a second creation under the same name fails with `AlreadyExists`,
/// whatever else the state holds.
pub proof fn lemma_governance_unique(s: SystemView, name: Seq<char>, s1: SystemView)
    requires
        create_governance_t(s, name) == Ok::<SystemView, VotingErrorCode>(s1),
    ensures
        create_governance_t(s1, name) == Err::<SystemView, VotingErrorCode>(
            VotingErrorCode::AlreadyExists,
        ),
{
    lemma_find_governance(s1.governances, name);
    assert(s1.governances[s.governances.len() as int].name == name);
}

/// Uniqueness of membership: once `join` has registered an owner under a
/// governance, a second `join` by the same owner fails with `AlreadyExists`.
pub proof fn lemma_join_unique(
    s: SystemView,
    governance: Seq<char>,
    owner: Seq<char>,
    s1: SystemView,
)
    requires
        join_t(s, governance, owner) == Ok::<SystemView, VotingErrorCode>(s1),
    ensures
        join_t(s1, governance, owner) == Err::<SystemView, VotingErrorCode>(
            VotingErrorCode::AlreadyExists,
        ),
{
    lemma_find_user(s1.users, governance, owner);
    assert(s1.users[s.users.len() as int].governance == governance);
    assert(s1.users[s.users.len() as int].owner == owner);
}

/// Window gating of `commit_vote`: on an existing proposal, a commitment
/// before the window opens (never started, or `now` before `start`) fails
/// with `NotStarted`, and one at or after `end` fails with `VotingEnded`.
pub proof fn lemma_commit_window_gating(
    s: SystemView,
    governance: Seq<char>,
    title: Seq<char>,
    voter: Seq<char>,
    digest: Seq<char>,
    now: int,
    pi: int,
)
    requires
        find_proposal(s.proposals, governance, title) == Some(pi),
    ensures
        0 <= pi < s.proposals.len(),
        s.proposals[pi].start == 0 || now < s.proposals[pi].start ==> commit_vote_t(
            s,
            governance,
            title,
            voter,
            digest,
            now,
        ) == Err::<SystemView, VotingErrorCode>(VotingErrorCode::NotStarted),
        s.proposals[pi].start != 0 && s.proposals[pi].start <= now && now >= s.proposals[pi].end
            ==> commit_vote_t(s, governance, title, voter, digest, now) == Err::<
            SystemView,
            VotingErrorCode,
        >(VotingErrorCode::VotingEnded),
{
    lemma_find_proposal(s.proposals, governance, title);
}

/// Double-commit prevention: after a successful commitment, a second
/// commitment by the same voter on the same proposal fails with
/// `AlreadyExists`, as long as it is attempted inside the voting window.
pub proof fn lemma_double_commit(
    s: SystemView,
    governance: Seq<char>,
    title: Seq<char>,
    voter: Seq<char>,
    digest: Seq<char>,
    now: int,
    s1: SystemView,
    digest2: Seq<char>,
    now2: int,
)
    requires
        commit_vote_t(s, governance, title, voter, digest, now) == Ok::<
            SystemView,
            VotingErrorCode,
        >(s1),
        match find_proposal(s.proposals, governance, title) {
            Some(pi) => s.proposals[pi].start <= now2 < s.proposals[pi].end,
            None => false,
        },
    ensures
        commit_vote_t(s1, governance, title, voter, digest2, now2) == Err::<
            SystemView,
            VotingErrorCode,
        >(VotingErrorCode::AlreadyExists),
{
    lemma_find_commitment(s1.commitments, governance, title, voter);
    assert(s1.commitments[s.commitments.len() as int].governance == governance);
    assert(s1.commitments[s.commitments.len() as int].title == title);
    assert(s1.commitments[s.commitments.len() as int].voter == voter);
}

/// Commit/reveal round trip: for every vote and salt, committing the digest
/// of that vote and salt and revealing them once the window has closed
/// succeeds, grows exactly the matching tally by one, and awards the voter
/// exactly one point.
pub proof fn lemma_commit_reveal_round_trip(
    s: SystemView,
    governance: Seq<char>,
    title: Seq<char>,
    voter: Seq<char>,
    vote: bool,
    salt: Seq<char>,
    now1: int,
    now2: int,
    s1: SystemView,
)
    requires
        commit_vote_t(s, governance, title, voter, commitment_of(vote, salt), now1) == Ok::<
            SystemView,
            VotingErrorCode,
        >(s1),
        find_user(s.users, governance, voter) is Some,
        match find_proposal(s.proposals, governance, title) {
            Some(pi) => now2 >= s.proposals[pi].end,
            None => false,
        },
    ensures
        match (
            find_proposal(s.proposals, governance, title),
            find_user(s.users, governance, voter),
            reveal_vote_t(s1, governance, title, voter, vote, salt, now2),
        ) {
            (Some(pi), Some(ui), Ok(s2)) => {
                &&& s2.proposals[pi].votes_for == s.proposals[pi].votes_for + (if vote {
                    1int
                } else {
                    0int
                })
                &&& s2.proposals[pi].votes_against == s.proposals[pi].votes_against + (if vote {
                    0int
                } else {
                    1int
                })
                &&& s2.users[ui].points == s.users[ui].points + 1
            },
            _ => false,
        },
{
    lemma_find_proposal(s.proposals, governance, title);
    lemma_find_user(s.users, governance, voter);
    lemma_find_commitment(s.commitments, governance, title, voter);
    lemma_find_commitment(s1.commitments, governance, title, voter);
    assert(forall|j: int|
        0 <= j < s.commitments.len() ==> #[trigger] s1.commitments[j] == s.commitments[j]);
    assert(s1.commitments[s.commitments.len() as int].governance == governance);
    assert(s1.commitments[s.commitments.len() as int].title == title);
    assert(s1.commitments[s.commitments.len() as int].voter == voter);
    assert(find_commitment(s1.commitments, governance, title, voter) == Some(
        s.commitments.len() as int,
    ));
}

/// Reveal verification: on a closed window, a reveal whose recomputed digest
/// differs from the stored, unconsumed commitment fails with
/// `InvalidCommitment` and changes nothing.
pub proof fn lemma_reveal_mismatch(
    s: SystemView,
    governance: Seq<char>,
    title: Seq<char>,
    voter: Seq<char>,
    vote: bool,
    salt: Seq<char>,
    now: int,
    pi: int,
    ci: int,
)
    requires
        find_proposal(s.proposals, governance, title) == Some(pi),
        s.proposals[pi].start != 0,
        now >= s.proposals[pi].end,
        find_commitment(s.commitments, governance, title, voter) == Some(ci),
        !s.commitments[ci].revealed,
        s.commitments[ci].commitment != commitment_of(vote, salt),
    ensures
        reveal_vote_t(s, governance, title, voter, vote, salt, now) == Err::<
            SystemView,
            VotingErrorCode,
        >(VotingErrorCode::InvalidCommitment),
{
    lemma_find_proposal(s.proposals, governance, title);
    lemma_find_commitment(s.commitments, governance, title, voter);
}

/// Reveal timing: on an existing proposal, a reveal before `end` fails with
/// `VotingNotEnded`.
pub proof fn lemma_reveal_timing(
    s: SystemView,
    governance: Seq<char>,
    title: Seq<char>,
    voter: Seq<char>,
    vote: bool,
    salt: Seq<char>,
    now: int,
    pi: int,
)
    requires
        find_proposal(s.proposals, governance, title) == Some(pi),
        now < s.proposals[pi].end,
    ensures
        reveal_vote_t(s, governance, title, voter, vote, salt, now) == Err::<
            SystemView,
            VotingErrorCode,
        >(VotingErrorCode::VotingNotEnded),
{
    lemma_find_proposal(s.proposals, governance, title);
}

/// A well-formed state never tallies more votes than it has distinct
/// committed voters on the proposal: the keys of commitments are unique, so
/// counting commitments counts voters.
pub proof fn lemma_tally_bounded(s: SystemView, pi: int)
    requires
        wf(s),
        0 <= pi < s.proposals.len(),
    ensures
        s.proposals[pi].votes_for + s.proposals[pi].votes_against <= count_where(
            s.commitments,
            committed_on(s.proposals[pi].governance, s.proposals[pi].title),
        ),
{
    lemma_count_implies(
        s.commitments,
        revealed_on(s.proposals[pi].governance, s.proposals[pi].title),
        committed_on(s.proposals[pi].governance, s.proposals[pi].title),
    );
}

/// Tallies grow monotonically: a successful reveal never decreases any
/// proposal's counters.
pub proof fn lemma_reveal_monotonic(
    s: SystemView,
    governance: Seq<char>,
    title: Seq<char>,
    voter: Seq<char>,
    vote: bool,
    salt: Seq<char>,
    now: int,
    s2: SystemView,
)
    requires
        reveal_vote_t(s, governance, title, voter, vote, salt, now) == Ok::<
            SystemView,
            VotingErrorCode,
        >(s2),
    ensures
        s2.proposals.len() == s.proposals.len(),
        forall|q: int|
            0 <= q < s.proposals.len() ==> (#[trigger] s2.proposals[q]).votes_for
                >= s.proposals[q].votes_for && s2.proposals[q].votes_against
                >= s.proposals[q].votes_against,
{
    lemma_find_proposal(s.proposals, governance, title);
}

/// No other operation moves a tally: opening a window keeps every proposal's
/// counters as they were.
pub proof fn lemma_start_vote_keeps_tallies(
    s: SystemView,
    governance: Seq<char>,
    title: Seq<char>,
    now: int,
    end: int,
    s2: SystemView,
)
    requires
        start_vote_t(s, governance, title, now, end) == Ok::<SystemView, VotingErrorCode>(s2),
    ensures
        s2.proposals.len() == s.proposals.len(),
        forall|q: int|
            0 <= q < s.proposals.len() ==> (#[trigger] s2.proposals[q]).votes_for
                == s.proposals[q].votes_for && s2.proposals[q].votes_against
                == s.proposals[q].votes_against,
{
    lemma_find_proposal(s.proposals, governance, title);
}

} // verus!
