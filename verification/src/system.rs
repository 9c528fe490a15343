//! The executable voting store and its operations.
//!
//! [`VotingSystem`] holds every record of the protocol. Each public operation
//! is specified by the matching transition function of [`crate::model`]: on
//! success the new state is exactly the transition's result, on failure the
//! state is unchanged and the reported error kind is the transition's.

use vstd::prelude::*;

use crate::commitment::make_commitment;
use crate::errors::VotingErrorCode;
use crate::model::{
    commit_vote_t, count_where, create_governance_t, create_proposal_t, find_commitment,
    find_governance, find_proposal, find_user, get_result_t, join_t, reveal_vote_t, revealed_by,
    revealed_on, start_vote_t, CommitmentView, GovernanceView, ProposalView, SystemView, UserView,
};
use crate::model_lemmas::{
    lemma_count_lt_len, lemma_count_push, lemma_count_update, lemma_count_zero,
    lemma_find_commitment, lemma_find_governance, lemma_find_proposal, lemma_find_user,
};

verus! {

/// A named voting organization.
pub struct Governance {
    pub name: String,
}

impl View for Governance {
    type V = GovernanceView;

    open spec fn view(&self) -> GovernanceView {
        GovernanceView { name: self.name@ }
    }
}

/// A member of a governance, accumulating a reputation point per successful
/// reveal.
pub struct User {
    pub governance: String,
    pub owner: String,
    pub points: u64,
}

impl View for User {
    type V = UserView;

    open spec fn view(&self) -> UserView {
        UserView { governance: self.governance@, owner: self.owner@, points: self.points as int }
    }
}

/// A voteable item with its tally and its commit window `[start, end)`.
/// `start == end == 0` until the window is opened.
pub struct Proposal {
    pub governance: String,
    pub title: String,
    pub votes_for: u64,
    pub votes_against: u64,
    pub start: i64,
    pub end: i64,
}

impl View for Proposal {
    type V = ProposalView;

    open spec fn view(&self) -> ProposalView {
        ProposalView {
            governance: self.governance@,
            title: self.title@,
            votes_for: self.votes_for as int,
            votes_against: self.votes_against as int,
            start: self.start as int,
            end: self.end as int,
        }
    }
}

/// A voter's commitment digest on a proposal, stored verbatim; `revealed`
/// marks it consumed.
pub struct VoteCommitment {
    pub governance: String,
    pub title: String,
    pub voter: String,
    pub commitment: String,
    pub revealed: bool,
}

impl View for VoteCommitment {
    type V = CommitmentView;

    open spec fn view(&self) -> CommitmentView {
        CommitmentView {
            governance: self.governance@,
            title: self.title@,
            voter: self.voter@,
            commitment: self.commitment@,
            revealed: self.revealed,
        }
    }
}

/// The keyed store of the protocol. Every operation is atomic: it validates,
/// then either applies all of its mutations or none.
pub struct VotingSystem {
    governances: Vec<Governance>,
    users: Vec<User>,
    proposals: Vec<Proposal>,
    commitments: Vec<VoteCommitment>,
}

impl View for VotingSystem {
    type V = SystemView;

    closed spec fn view(&self) -> SystemView {
        SystemView {
            governances: self.governances@.map_values(|g: Governance| g@),
            users: self.users@.map_values(|u: User| u@),
            proposals: self.proposals@.map_values(|p: Proposal| p@),
            commitments: self.commitments@.map_values(|c: VoteCommitment| c@),
        }
    }
}

impl VotingSystem {
    /// The store's invariant; see [`crate::model::wf`].
    pub open spec fn wf(&self) -> bool {
        crate::model::wf(self@)
    }

    /// An empty store.
    pub fn new() -> (s: VotingSystem)
        ensures
            s.wf(),
            s@.governances.len() == 0,
            s@.users.len() == 0,
            s@.proposals.len() == 0,
            s@.commitments.len() == 0,
    {
        let s = VotingSystem {
            governances: Vec::new(),
            users: Vec::new(),
            proposals: Vec::new(),
            commitments: Vec::new(),
        };
        proof {
            assert(s@.governances =~= Seq::<GovernanceView>::empty());
            assert(s@.users =~= Seq::<UserView>::empty());
            assert(s@.proposals =~= Seq::<ProposalView>::empty());
            assert(s@.commitments =~= Seq::<CommitmentView>::empty());
        }
        s
    }

    /// Index of the governance with this name, agreeing with the model's
    /// lookup.
    fn find_governance_idx(&self, name: &String) -> (r: Option<usize>)
        ensures
            match r {
                Some(i) => find_governance(self@.governances, name@) == Some(i as int),
                None => find_governance(self@.governances, name@) is None,
            },
    {
        let n = self.governances.len();
        let mut j: usize = 0;
        while j < n
            invariant
                n == self.governances.len(),
                j <= n,
                forall|k: int| 0 <= k < j ==> (#[trigger] self@.governances[k]).name != name@,
            decreases n - j,
        {
            if self.governances[j].name == *name {
                proof {
                    assert(self@.governances[j as int].name == name@);
                    lemma_find_governance(self@.governances, name@);
                }
                return Some(j);
            }
            j += 1;
        }
        proof {
            lemma_find_governance(self@.governances, name@);
        }
        None
    }

    /// Index of the member record of this owner under this governance,
    /// agreeing with the model's lookup.
    fn find_user_idx(&self, governance: &String, owner: &String) -> (r: Option<usize>)
        ensures
            match r {
                Some(i) => find_user(self@.users, governance@, owner@) == Some(i as int),
                None => find_user(self@.users, governance@, owner@) is None,
            },
    {
        let n = self.users.len();
        let mut j: usize = 0;
        while j < n
            invariant
                n == self.users.len(),
                j <= n,
                forall|k: int|
                    0 <= k < j ==> !((#[trigger] self@.users[k]).governance == governance@
                        && self@.users[k].owner == owner@),
            decreases n - j,
        {
            if self.users[j].governance == *governance && self.users[j].owner == *owner {
                proof {
                    assert(self@.users[j as int].governance == governance@);
                    assert(self@.users[j as int].owner == owner@);
                    lemma_find_user(self@.users, governance@, owner@);
                }
                return Some(j);
            }
            proof {
                assert(self@.users[j as int] == self.users@[j as int]@);
            }
            j += 1;
        }
        proof {
            lemma_find_user(self@.users, governance@, owner@);
        }
        None
    }

    /// Index of the proposal with this title under this governance, agreeing
    /// with the model's lookup.
    fn find_proposal_idx(&self, governance: &String, title: &String) -> (r: Option<usize>)
        ensures
            match r {
                Some(i) => find_proposal(self@.proposals, governance@, title@) == Some(i as int),
                None => find_proposal(self@.proposals, governance@, title@) is None,
            },
    {
        let n = self.proposals.len();
        let mut j: usize = 0;
        while j < n
            invariant
                n == self.proposals.len(),
                j <= n,
                forall|k: int|
                    0 <= k < j ==> !((#[trigger] self@.proposals[k]).governance == governance@
                        && self@.proposals[k].title == title@),
            decreases n - j,
        {
            if self.proposals[j].governance == *governance && self.proposals[j].title == *title {
                proof {
                    assert(self@.proposals[j as int].governance == governance@);
                    assert(self@.proposals[j as int].title == title@);
                    lemma_find_proposal(self@.proposals, governance@, title@);
                }
                return Some(j);
            }
            proof {
                assert(self@.proposals[j as int] == self.proposals@[j as int]@);
            }
            j += 1;
        }
        proof {
            lemma_find_proposal(self@.proposals, governance@, title@);
        }
        None
    }

    /// Index of the commitment of this voter on this proposal, agreeing with
    /// the model's lookup.
    fn find_commitment_idx(&self, governance: &String, title: &String, voter: &String) -> (r:
        Option<usize>)
        ensures
            match r {
                Some(i) => find_commitment(self@.commitments, governance@, title@, voter@) == Some(
                    i as int,
                ),
                None => find_commitment(self@.commitments, governance@, title@, voter@) is None,
            },
    {
        let n = self.commitments.len();
        let mut j: usize = 0;
        while j < n
            invariant
                n == self.commitments.len(),
                j <= n,
                forall|k: int|
                    0 <= k < j ==> !((#[trigger] self@.commitments[k]).governance == governance@
                        && self@.commitments[k].title == title@ && self@.commitments[k].voter
                        == voter@),
            decreases n - j,
        {
            if self.commitments[j].governance == *governance && self.commitments[j].title == *title
                && self.commitments[j].voter == *voter {
                proof {
                    assert(self@.commitments[j as int].governance == governance@);
                    assert(self@.commitments[j as int].title == title@);
                    assert(self@.commitments[j as int].voter == voter@);
                    lemma_find_commitment(self@.commitments, governance@, title@, voter@);
                }
                return Some(j);
            }
            proof {
                assert(self@.commitments[j as int] == self.commitments@[j as int]@);
            }
            j += 1;
        }
        proof {
            lemma_find_commitment(self@.commitments, governance@, title@, voter@);
        }
        None
    }

    /// Registers a new governance under a unique name.
    pub fn create_governance(&mut self, name: &str) -> (r: Result<(), VotingErrorCode>)
        requires
            old(self).wf(),
        ensures
            final(self).wf(),
            match r {
                Ok(()) => create_governance_t(old(self)@, name@) == Ok::<
                    SystemView,
                    VotingErrorCode,
                >(final(self)@),
                Err(e) => create_governance_t(old(self)@, name@) == Err::<
                    SystemView,
                    VotingErrorCode,
                >(e) && final(self)@ == old(self)@,
            },
    {
        let key = name.to_owned();
        match self.find_governance_idx(&key) {
            Some(_) => Err(VotingErrorCode::AlreadyExists),
            None => {
                proof {
                    lemma_find_governance(self@.governances, key@);
                }
                self.governances.push(Governance { name: key });
                proof {
                    assert(self@.governances =~= old(self)@.governances.push(
                        GovernanceView { name: name@ },
                    ));
                    assert(self@.users =~= old(self)@.users);
                    assert(self@.proposals =~= old(self)@.proposals);
                    assert(self@.commitments =~= old(self)@.commitments);
                    assert(create_governance_t(old(self)@, name@) == Ok::<
                        SystemView,
                        VotingErrorCode,
                    >(self@));
                }
                Ok(())
            },
        }
    }

    /// Registers the caller as a member of an existing governance, with zero
    /// points.
    pub fn join(&mut self, governance: &str, owner: &str) -> (r: Result<(), VotingErrorCode>)
        requires
            old(self).wf(),
        ensures
            final(self).wf(),
            match r {
                Ok(()) => join_t(old(self)@, governance@, owner@) == Ok::<
                    SystemView,
                    VotingErrorCode,
                >(final(self)@),
                Err(e) => join_t(old(self)@, governance@, owner@) == Err::<
                    SystemView,
                    VotingErrorCode,
                >(e) && final(self)@ == old(self)@,
            },
    {
        let gov_key = governance.to_owned();
        let owner_key = owner.to_owned();
        if self.find_governance_idx(&gov_key).is_none() {
            return Err(VotingErrorCode::NotFound);
        }
        match self.find_user_idx(&gov_key, &owner_key) {
            Some(_) => Err(VotingErrorCode::AlreadyExists),
            None => {
                proof {
                    lemma_find_user(self@.users, governance@, owner@);
                }
                self.users.push(
                    User { governance: gov_key, owner: owner_key, points: 0 },
                );
                proof {
                    let s0 = old(self)@;
                    let s1 = self@;
                    let u = UserView { governance: governance@, owner: owner@, points: 0 };
                    assert(s1.users =~= s0.users.push(u));
                    assert(s1.governances =~= s0.governances);
                    assert(s1.proposals =~= s0.proposals);
                    assert(s1.commitments =~= s0.commitments);
                    assert(join_t(s0, governance@, owner@) == Ok::<SystemView, VotingErrorCode>(
                        s1,
                    ));
                    // the new member's zero points match an empty count: a
                    // consumed commitment of theirs would imply an existing
                    // member record, which the lookup ruled out
                    assert forall|j: int|
                        0 <= j < s0.commitments.len() implies !(revealed_by(governance@, owner@))(
                        #[trigger] s0.commitments[j],
                    ) by {
                        if s0.commitments[j].revealed && s0.commitments[j].governance
                            == governance@ && s0.commitments[j].voter == owner@ {
                            assert(find_user(s0.users, governance@, owner@) is Some);
                        }
                    }
                    lemma_count_zero(s0.commitments, revealed_by(governance@, owner@));
                    // existing member records still found after the append
                    assert forall|i: int|
                        0 <= i < s1.commitments.len() && (#[trigger] s1.commitments[i]).revealed
                        implies find_user(
                        s1.users,
                        s1.commitments[i].governance,
                        s1.commitments[i].voter,
                    ) is Some by {
                        let g = s1.commitments[i].governance;
                        let v = s1.commitments[i].voter;
                        assert(s1.commitments[i] == s0.commitments[i]);
                        assert(find_user(s0.users, g, v) is Some);
                        lemma_find_user(s0.users, g, v);
                        match find_user(s0.users, g, v) {
                            Some(idx) => {
                                assert(s1.users[idx] == s0.users[idx]);
                                lemma_find_user(s1.users, g, v);
                            },
                            None => {},
                        }
                    }
                }
                Ok(())
            },
        }
    }

    /// Creates a proposal under an existing governance, with zeroed tallies
    /// and an unopened voting window.
    pub fn create_proposal(&mut self, governance: &str, title: &str) -> (r: Result<
        (),
        VotingErrorCode,
    >)
        requires
            old(self).wf(),
        ensures
            final(self).wf(),
            match r {
                Ok(()) => create_proposal_t(old(self)@, governance@, title@) == Ok::<
                    SystemView,
                    VotingErrorCode,
                >(final(self)@),
                Err(e) => create_proposal_t(old(self)@, governance@, title@) == Err::<
                    SystemView,
                    VotingErrorCode,
                >(e) && final(self)@ == old(self)@,
            },
    {
        let gov_key = governance.to_owned();
        let title_key = title.to_owned();
        if self.find_governance_idx(&gov_key).is_none() {
            return Err(VotingErrorCode::NotFound);
        }
        match self.find_proposal_idx(&gov_key, &title_key) {
            Some(_) => Err(VotingErrorCode::AlreadyExists),
            None => {
                proof {
                    lemma_find_proposal(self@.proposals, governance@, title@);
                }
                self.proposals.push(
                    Proposal {
                        governance: gov_key,
                        title: title_key,
                        votes_for: 0,
                        votes_against: 0,
                        start: 0,
                        end: 0,
                    },
                );
                proof {
                    let s0 = old(self)@;
                    let s1 = self@;
                    let p = ProposalView {
                        governance: governance@,
                        title: title@,
                        votes_for: 0,
                        votes_against: 0,
                        start: 0,
                        end: 0,
                    };
                    assert(s1.proposals =~= s0.proposals.push(p));
                    assert(s1.governances =~= s0.governances);
                    assert(s1.users =~= s0.users);
                    assert(s1.commitments =~= s0.commitments);
                    assert(create_proposal_t(s0, governance@, title@) == Ok::<
                        SystemView,
                        VotingErrorCode,
                    >(s1));
                    // the zeroed tally matches an empty count: a commitment
                    // on this proposal would imply the proposal already
                    // existed, which the lookup ruled out
                    assert forall|j: int|
                        0 <= j < s0.commitments.len() implies !(revealed_on(governance@, title@))(
                        #[trigger] s0.commitments[j],
                    ) by {
                        if s0.commitments[j].governance == governance@ && s0.commitments[j].title
                            == title@ {
                            assert(find_proposal(s0.proposals, governance@, title@) is Some);
                        }
                    }
                    lemma_count_zero(s0.commitments, revealed_on(governance@, title@));
                    // existing proposals are still found after the append
                    assert forall|i: int|
                        0 <= i < s1.commitments.len() implies find_proposal(
                        s1.proposals,
                        (#[trigger] s1.commitments[i]).governance,
                        s1.commitments[i].title,
                    ) is Some by {
                        let g = s1.commitments[i].governance;
                        let t = s1.commitments[i].title;
                        assert(s1.commitments[i] == s0.commitments[i]);
                        assert(find_proposal(s0.proposals, g, t) is Some);
                        lemma_find_proposal(s0.proposals, g, t);
                        match find_proposal(s0.proposals, g, t) {
                            Some(idx) => {
                                assert(s1.proposals[idx].governance == s0.proposals[idx].governance
                                    && s1.proposals[idx].title == s0.proposals[idx].title);
                                lemma_find_proposal(s1.proposals, g, t);
                            },
                            None => {},
                        }
                    }
                }
                Ok(())
            },
        }
    }

    /// Opens a proposal's voting window: `start` becomes the supplied current
    /// time, `end` the supplied deadline. No guard prevents reopening an
    /// already opened window; callers are expected to supply a future
    /// deadline.
    pub fn start_vote(&mut self, governance: &str, title: &str, now: i64, end: i64) -> (r: Result<
        (),
        VotingErrorCode,
    >)
        requires
            old(self).wf(),
        ensures
            final(self).wf(),
            match r {
                Ok(()) => start_vote_t(old(self)@, governance@, title@, now as int, end as int)
                    == Ok::<SystemView, VotingErrorCode>(final(self)@),
                Err(e) => start_vote_t(old(self)@, governance@, title@, now as int, end as int)
                    == Err::<SystemView, VotingErrorCode>(e) && final(self)@ == old(self)@,
            },
    {
        let gov_key = governance.to_owned();
        let title_key = title.to_owned();
        match self.find_proposal_idx(&gov_key, &title_key) {
            None => Err(VotingErrorCode::NotFound),
            Some(pi) => {
                proof {
                    lemma_find_proposal(self@.proposals, governance@, title@);
                }
                self.proposals[pi].start = now;
                self.proposals[pi].end = end;
                proof {
                    let s0 = old(self)@;
                    let s1 = self@;
                    let p1 = ProposalView { start: now as int, end: end as int, ..s0.proposals[pi as int] };
                    assert(s1.proposals =~= s0.proposals.update(pi as int, p1));
                    assert(s1.governances =~= s0.governances);
                    assert(s1.users =~= s0.users);
                    assert(s1.commitments =~= s0.commitments);
                    assert(start_vote_t(s0, governance@, title@, now as int, end as int) == Ok::<
                        SystemView,
                        VotingErrorCode,
                    >(s1));
                    // proposals keep their keys, so lookups still succeed
                    assert forall|i: int|
                        0 <= i < s1.commitments.len() implies find_proposal(
                        s1.proposals,
                        (#[trigger] s1.commitments[i]).governance,
                        s1.commitments[i].title,
                    ) is Some by {
                        let g = s1.commitments[i].governance;
                        let t = s1.commitments[i].title;
                        assert(s1.commitments[i] == s0.commitments[i]);
                        assert(find_proposal(s0.proposals, g, t) is Some);
                        lemma_find_proposal(s0.proposals, g, t);
                        match find_proposal(s0.proposals, g, t) {
                            Some(idx) => {
                                assert(s1.proposals[idx].governance == s0.proposals[idx].governance
                                    && s1.proposals[idx].title == s0.proposals[idx].title);
                                lemma_find_proposal(s1.proposals, g, t);
                            },
                            None => {},
                        }
                    }
                }
                Ok(())
            },
        }
    }

    /// Stores a voter's commitment digest verbatim, provided the proposal's
    /// window is open and the voter has not committed on it before.
    pub fn commit_vote(
        &mut self,
        governance: &str,
        title: &str,
        voter: &str,
        digest: &str,
        now: i64,
    ) -> (r: Result<(), VotingErrorCode>)
        requires
            old(self).wf(),
        ensures
            final(self).wf(),
            match r {
                Ok(()) => commit_vote_t(
                    old(self)@,
                    governance@,
                    title@,
                    voter@,
                    digest@,
                    now as int,
                ) == Ok::<SystemView, VotingErrorCode>(final(self)@),
                Err(e) => commit_vote_t(
                    old(self)@,
                    governance@,
                    title@,
                    voter@,
                    digest@,
                    now as int,
                ) == Err::<SystemView, VotingErrorCode>(e) && final(self)@ == old(self)@,
            },
    {
        let gov_key = governance.to_owned();
        let title_key = title.to_owned();
        let voter_key = voter.to_owned();
        let pi = match self.find_proposal_idx(&gov_key, &title_key) {
            None => {
                return Err(VotingErrorCode::NotFound);
            },
            Some(i) => i,
        };
        proof {
            lemma_find_proposal(self@.proposals, governance@, title@);
        }
        if self.proposals[pi].start == 0 || now < self.proposals[pi].start {
            return Err(VotingErrorCode::NotStarted);
        }
        if now >= self.proposals[pi].end {
            return Err(VotingErrorCode::VotingEnded);
        }
        match self.find_commitment_idx(&gov_key, &title_key, &voter_key) {
            Some(_) => Err(VotingErrorCode::AlreadyExists),
            None => {
                proof {
                    lemma_find_commitment(self@.commitments, governance@, title@, voter@);
                }
                self.commitments.push(
                    VoteCommitment {
                        governance: gov_key,
                        title: title_key,
                        voter: voter_key,
                        commitment: digest.to_owned(),
                        revealed: false,
                    },
                );
                proof {
                    let s0 = old(self)@;
                    let s1 = self@;
                    let c = CommitmentView {
                        governance: governance@,
                        title: title@,
                        voter: voter@,
                        commitment: digest@,
                        revealed: false,
                    };
                    assert(s1.commitments =~= s0.commitments.push(c));
                    assert(s1.governances =~= s0.governances);
                    assert(s1.users =~= s0.users);
                    assert(s1.proposals =~= s0.proposals);
                    assert(commit_vote_t(s0, governance@, title@, voter@, digest@, now as int)
                        == Ok::<SystemView, VotingErrorCode>(s1));
                    // the appended commitment is unconsumed, so no tally or
                    // point count moves
                    assert forall|q: int| 0 <= q < s1.proposals.len() implies (
                    #[trigger] s1.proposals[q]).votes_for + s1.proposals[q].votes_against
                        == count_where(
                        s1.commitments,
                        revealed_on(s1.proposals[q].governance, s1.proposals[q].title),
                    ) by {
                        lemma_count_push(
                            s0.commitments,
                            revealed_on(s1.proposals[q].governance, s1.proposals[q].title),
                            c,
                        );
                    }
                    assert forall|q: int| 0 <= q < s1.users.len() implies (
                    #[trigger] s1.users[q]).points == count_where(
                        s1.commitments,
                        revealed_by(s1.users[q].governance, s1.users[q].owner),
                    ) by {
                        lemma_count_push(
                            s0.commitments,
                            revealed_by(s1.users[q].governance, s1.users[q].owner),
                            c,
                        );
                    }
                    assert forall|i: int|
                        0 <= i < s1.commitments.len() && (#[trigger] s1.commitments[i]).revealed
                        implies find_user(
                        s1.users,
                        s1.commitments[i].governance,
                        s1.commitments[i].voter,
                    ) is Some by {
                        assert(s1.commitments[i] == s0.commitments[i]);
                    }
                    assert forall|i: int|
                        0 <= i < s1.commitments.len() implies find_proposal(
                        s1.proposals,
                        (#[trigger] s1.commitments[i]).governance,
                        s1.commitments[i].title,
                    ) is Some by {
                        if i < s0.commitments.len() {
                            assert(s1.commitments[i] == s0.commitments[i]);
                        } else {
                            assert(s1.commitments[i] == c);
                        }
                    }
                }
                Ok(())
            },
        }
    }

    /// Verifies a voter's revealed choice against the stored commitment and,
    /// on success, consumes the commitment, bumps the matching tally and
    /// awards the member a point.
    pub fn reveal_vote(
        &mut self,
        governance: &str,
        title: &str,
        voter: &str,
        vote: bool,
        salt: &str,
        now: i64,
    ) -> (r: Result<(), VotingErrorCode>)
        requires
            old(self).wf(),
        ensures
            final(self).wf(),
            match r {
                Ok(()) => reveal_vote_t(
                    old(self)@,
                    governance@,
                    title@,
                    voter@,
                    vote,
                    salt@,
                    now as int,
                ) == Ok::<SystemView, VotingErrorCode>(final(self)@),
                Err(e) => reveal_vote_t(
                    old(self)@,
                    governance@,
                    title@,
                    voter@,
                    vote,
                    salt@,
                    now as int,
                ) == Err::<SystemView, VotingErrorCode>(e) && final(self)@ == old(self)@,
            },
    {
        let gov_key = governance.to_owned();
        let title_key = title.to_owned();
        let voter_key = voter.to_owned();
        let pi = match self.find_proposal_idx(&gov_key, &title_key) {
            None => {
                return Err(VotingErrorCode::NotFound);
            },
            Some(i) => i,
        };
        proof {
            lemma_find_proposal(self@.proposals, governance@, title@);
        }
        if self.proposals[pi].start == 0 || now < self.proposals[pi].end {
            return Err(VotingErrorCode::VotingNotEnded);
        }
        let ci = match self.find_commitment_idx(&gov_key, &title_key, &voter_key) {
            None => {
                return Err(VotingErrorCode::NotFound);
            },
            Some(i) => i,
        };
        proof {
            lemma_find_commitment(self@.commitments, governance@, title@, voter@);
        }
        if self.commitments[ci].revealed {
            return Err(VotingErrorCode::NotFound);
        }
        let expected = make_commitment(vote, salt);
        if !(self.commitments[ci].commitment == expected) {
            return Err(VotingErrorCode::InvalidCommitment);
        }
        let ui = match self.find_user_idx(&gov_key, &voter_key) {
            None => {
                return Err(VotingErrorCode::NotFound);
            },
            Some(i) => i,
        };
        let total_commitments = self.commitments.len();
        proof {
            lemma_find_user(self@.users, governance@, voter@);
            // the tally and the points stay below the number of commitments,
            // so the increments cannot overflow
            let s0 = self@;
            let p = s0.proposals[pi as int];
            let u = s0.users[ui as int];
            assert(total_commitments == s0.commitments.len());
            assert(p.votes_for + p.votes_against == count_where(
                s0.commitments,
                revealed_on(p.governance, p.title),
            ));
            assert(!(revealed_on(p.governance, p.title))(s0.commitments[ci as int]));
            lemma_count_lt_len(
                s0.commitments,
                revealed_on(p.governance, p.title),
                ci as int,
            );
            assert(p.votes_for + 1 <= total_commitments);
            assert(p.votes_against + 1 <= total_commitments);
            assert(u.points == count_where(
                s0.commitments,
                revealed_by(u.governance, u.owner),
            ));
            assert(!(revealed_by(u.governance, u.owner))(s0.commitments[ci as int]));
            lemma_count_lt_len(
                s0.commitments,
                revealed_by(u.governance, u.owner),
                ci as int,
            );
            assert(u.points + 1 <= total_commitments);
            assert(usize::MAX <= u64::MAX);
        }
        let ghost s0 = self@;
        self.commitments[ci].revealed = true;
        if vote {
            self.proposals[pi].votes_for = self.proposals[pi].votes_for + 1;
        } else {
            self.proposals[pi].votes_against = self.proposals[pi].votes_against + 1;
        }
        self.users[ui].points = self.users[ui].points + 1;
        proof {
            let s1 = self@;
            let p = s0.proposals[pi as int];
            let u = s0.users[ui as int];
            let c = s0.commitments[ci as int];
            let p1 = if vote {
                ProposalView { votes_for: p.votes_for + 1, ..p }
            } else {
                ProposalView { votes_against: p.votes_against + 1, ..p }
            };
            let c1 = CommitmentView { revealed: true, ..c };
            let u1 = UserView { points: u.points + 1, ..u };
            assert(s1.proposals =~= s0.proposals.update(pi as int, p1));
            assert(s1.commitments =~= s0.commitments.update(ci as int, c1));
            assert(s1.users =~= s0.users.update(ui as int, u1));
            assert(s1.governances =~= s0.governances);
            assert(reveal_vote_t(s0, governance@, title@, voter@, vote, salt@, now as int)
                == Ok::<SystemView, VotingErrorCode>(s1));
            // the consumed commitment moves exactly the tally of its own
            // proposal and the points of its own voter
            assert forall|q: int| 0 <= q < s1.proposals.len() implies (
            #[trigger] s1.proposals[q]).votes_for + s1.proposals[q].votes_against == count_where(
                s1.commitments,
                revealed_on(s1.proposals[q].governance, s1.proposals[q].title),
            ) by {
                lemma_count_update(
                    s0.commitments,
                    revealed_on(s1.proposals[q].governance, s1.proposals[q].title),
                    ci as int,
                    c1,
                );
                if q != pi as int && c1.governance == s1.proposals[q].governance && c1.title
                    == s1.proposals[q].title {
                    // two distinct proposals cannot share the commitment's key
                    assert(s0.proposals[q].governance == s0.proposals[pi as int].governance
                        && s0.proposals[q].title == s0.proposals[pi as int].title);
                    assert(false);
                }
            }
            assert forall|q: int| 0 <= q < s1.users.len() implies (#[trigger] s1.users[q]).points
                == count_where(
                s1.commitments,
                revealed_by(s1.users[q].governance, s1.users[q].owner),
            ) by {
                lemma_count_update(
                    s0.commitments,
                    revealed_by(s1.users[q].governance, s1.users[q].owner),
                    ci as int,
                    c1,
                );
                if q != ui as int && c1.governance == s1.users[q].governance && c1.voter
                    == s1.users[q].owner {
                    // two distinct members cannot share the commitment's key
                    assert(s0.users[q].governance == s0.users[ui as int].governance
                        && s0.users[q].owner == s0.users[ui as int].owner);
                    assert(false);
                }
            }
            assert forall|i: int|
                0 <= i < s1.commitments.len() && (#[trigger] s1.commitments[i]).revealed
                implies find_user(
                s1.users,
                s1.commitments[i].governance,
                s1.commitments[i].voter,
            ) is Some by {
                let g = s1.commitments[i].governance;
                let v = s1.commitments[i].voter;
                if i == ci as int {
                    assert(find_user(s0.users, g, v) is Some);
                } else {
                    assert(s1.commitments[i] == s0.commitments[i]);
                }
                lemma_find_user(s0.users, g, v);
                match find_user(s0.users, g, v) {
                    Some(idx) => {
                        assert(s1.users[idx].governance == s0.users[idx].governance
                            && s1.users[idx].owner == s0.users[idx].owner);
                        lemma_find_user(s1.users, g, v);
                    },
                    None => {},
                }
            }
            assert forall|i: int|
                0 <= i < s1.commitments.len() implies find_proposal(
                s1.proposals,
                (#[trigger] s1.commitments[i]).governance,
                s1.commitments[i].title,
            ) is Some by {
                let g = s1.commitments[i].governance;
                let t = s1.commitments[i].title;
                if i == ci as int {
                    assert(find_proposal(s0.proposals, g, t) is Some);
                } else {
                    assert(s1.commitments[i] == s0.commitments[i]);
                }
                lemma_find_proposal(s0.proposals, g, t);
                match find_proposal(s0.proposals, g, t) {
                    Some(idx) => {
                        assert(s1.proposals[idx].governance == s0.proposals[idx].governance
                            && s1.proposals[idx].title == s0.proposals[idx].title);
                        lemma_find_proposal(s1.proposals, g, t);
                    },
                    None => {},
                }
            }
        }
        Ok(())
    }

    /// Reads a member's reputation points.
    pub fn get_points(&self, governance: &str, owner: &str) -> (r: Result<u64, VotingErrorCode>)
        ensures
            match r {
                Ok(points) => match find_user(self@.users, governance@, owner@) {
                    Some(ui) => self@.users[ui].points == points as int,
                    None => false,
                },
                Err(e) => e == VotingErrorCode::NotFound && find_user(
                    self@.users,
                    governance@,
                    owner@,
                ) is None,
            },
    {
        let gov_key = governance.to_owned();
        let owner_key = owner.to_owned();
        match self.find_user_idx(&gov_key, &owner_key) {
            None => Err(VotingErrorCode::NotFound),
            Some(ui) => {
                proof {
                    lemma_find_user(self@.users, governance@, owner@);
                }
                Ok(self.users[ui].points)
            },
        }
    }

    /// Reads a proposal's tally: `(votes_for, votes_against)`.
    pub fn get_result(&self, governance: &str, title: &str) -> (r: Result<
        (u64, u64),
        VotingErrorCode,
    >)
        ensures
            match r {
                Ok(counts) => get_result_t(self@, governance@, title@) == Ok::<
                    (int, int),
                    VotingErrorCode,
                >((counts.0 as int, counts.1 as int)),
                Err(e) => get_result_t(self@, governance@, title@) == Err::<
                    (int, int),
                    VotingErrorCode,
                >(e),
            },
    {
        let gov_key = governance.to_owned();
        let title_key = title.to_owned();
        match self.find_proposal_idx(&gov_key, &title_key) {
            None => Err(VotingErrorCode::NotFound),
            Some(pi) => {
                proof {
                    lemma_find_proposal(self@.proposals, governance@, title@);
                }
                Ok((self.proposals[pi].votes_for, self.proposals[pi].votes_against))
            },
        }
    }
}

} // verus!
