//! The mathematical model of the voting state.
//!
//! Each record kind has a view holding plain values; the whole store is a
//! [`SystemView`]. Every public operation of the library is specified by a
//! transition function here, from a view and the operation's inputs to either
//! the next view or the error kind that the operation reports. The laws of
//! the protocol are proved over these transitions.

use vstd::prelude::*;

use crate::commitment::commitment_of;
use crate::errors::VotingErrorCode;

verus! {

/// A named voting organization. Identity: the name.
pub struct GovernanceView {
    pub name: Seq<char>,
}

/// A member registered under a governance. Identity: (governance, owner).
pub struct UserView {
    pub governance: Seq<char>,
    pub owner: Seq<char>,
    pub points: int,
}

/// A voteable item under a governance. Identity: (governance, title).
/// `start == 0` means the voting window has not been opened yet.
pub struct ProposalView {
    pub governance: Seq<char>,
    pub title: Seq<char>,
    pub votes_for: int,
    pub votes_against: int,
    pub start: int,
    pub end: int,
}

/// A voter's commitment on a proposal. Identity: (governance, title, voter).
/// `revealed` marks a commitment that was consumed by a successful reveal.
pub struct CommitmentView {
    pub governance: Seq<char>,
    pub title: Seq<char>,
    pub voter: Seq<char>,
    pub commitment: Seq<char>,
    pub revealed: bool,
}

/// The whole keyed store.
pub struct SystemView {
    pub governances: Seq<GovernanceView>,
    pub users: Seq<UserView>,
    pub proposals: Seq<ProposalView>,
    pub commitments: Seq<CommitmentView>,
}

/// Index of the first governance with this name, if any.
pub open spec fn find_governance(govs: Seq<GovernanceView>, name: Seq<char>) -> Option<int>
    decreases govs.len(),
{
    if govs.len() == 0 {
        None
    } else if govs.first().name == name {
        Some(0)
    } else {
        match find_governance(govs.drop_first(), name) {
            Some(i) => Some(i + 1),
            None => None,
        }
    }
}

/// Index of the first member record of this owner under this governance.
pub open spec fn find_user(users: Seq<UserView>, governance: Seq<char>, owner: Seq<char>) -> Option<
    int,
>
    decreases users.len(),
{
    if users.len() == 0 {
        None
    } else if users.first().governance == governance && users.first().owner == owner {
        Some(0)
    } else {
        match find_user(users.drop_first(), governance, owner) {
            Some(i) => Some(i + 1),
            None => None,
        }
    }
}

/// Index of the first proposal with this title under this governance.
pub open spec fn find_proposal(
    proposals: Seq<ProposalView>,
    governance: Seq<char>,
    title: Seq<char>,
) -> Option<int>
    decreases proposals.len(),
{
    if proposals.len() == 0 {
        None
    } else if proposals.first().governance == governance && proposals.first().title == title {
        Some(0)
    } else {
        match find_proposal(proposals.drop_first(), governance, title) {
            Some(i) => Some(i + 1),
            None => None,
        }
    }
}

/// Index of the first commitment of this voter on this proposal.
pub open spec fn find_commitment(
    commitments: Seq<CommitmentView>,
    governance: Seq<char>,
    title: Seq<char>,
    voter: Seq<char>,
) -> Option<int>
    decreases commitments.len(),
{
    if commitments.len() == 0 {
        None
    } else if commitments.first().governance == governance && commitments.first().title == title
        && commitments.first().voter == voter {
        Some(0)
    } else {
        match find_commitment(commitments.drop_first(), governance, title, voter) {
            Some(i) => Some(i + 1),
            None => None,
        }
    }
}

/// How many commitments satisfy a predicate.
pub open spec fn count_where(
    commitments: Seq<CommitmentView>,
    p: spec_fn(CommitmentView) -> bool,
) -> nat
    decreases commitments.len(),
{
    if commitments.len() == 0 {
        0
    } else {
        (if p(commitments.first()) {
            1nat
        } else {
            0nat
        }) + count_where(commitments.drop_first(), p)
    }
}

/// The commitments a proposal's tally counts: consumed (revealed) ones on it.
pub open spec fn revealed_on(governance: Seq<char>, title: Seq<char>) -> spec_fn(
    CommitmentView,
) -> bool {
    |c: CommitmentView| c.revealed && c.governance == governance && c.title == title
}

/// The commitments a member's points count: consumed ones by that member.
pub open spec fn revealed_by(governance: Seq<char>, owner: Seq<char>) -> spec_fn(
    CommitmentView,
) -> bool {
    |c: CommitmentView| c.revealed && c.governance == governance && c.voter == owner
}

/// All commitments on a proposal, consumed or not. The keys are unique, so
/// this is also the number of distinct committed voters.
pub open spec fn committed_on(governance: Seq<char>, title: Seq<char>) -> spec_fn(
    CommitmentView,
) -> bool {
    |c: CommitmentView| c.governance == governance && c.title == title
}

/// Well-formedness of the store: all keys are unique, each tally equals the
/// number of consumed commitments on its proposal, each member's points equal
/// the number of that member's consumed commitments, and consumed commitments
/// and commitments in general refer to records that exist.
pub open spec fn wf(s: SystemView) -> bool {
    &&& (forall|i: int, j: int|
        0 <= i < j < s.governances.len() ==> #[trigger] s.governances[i].name
            != #[trigger] s.governances[j].name)
    &&& (forall|i: int, j: int|
        0 <= i < j < s.users.len() ==> !(#[trigger] s.users[i].governance
            == #[trigger] s.users[j].governance && s.users[i].owner == s.users[j].owner))
    &&& (forall|i: int, j: int|
        0 <= i < j < s.proposals.len() ==> !(#[trigger] s.proposals[i].governance
            == #[trigger] s.proposals[j].governance && s.proposals[i].title
            == s.proposals[j].title))
    &&& (forall|i: int, j: int|
        0 <= i < j < s.commitments.len() ==> !(#[trigger] s.commitments[i].governance
            == #[trigger] s.commitments[j].governance && s.commitments[i].title
            == s.commitments[j].title && s.commitments[i].voter == s.commitments[j].voter))
    &&& (forall|i: int|
        0 <= i < s.proposals.len() ==> (#[trigger] s.proposals[i]).votes_for
            + s.proposals[i].votes_against == count_where(
            s.commitments,
            revealed_on(s.proposals[i].governance, s.proposals[i].title),
        ))
    &&& (forall|i: int|
        0 <= i < s.users.len() ==> (#[trigger] s.users[i]).points == count_where(
            s.commitments,
            revealed_by(s.users[i].governance, s.users[i].owner),
        ))
    &&& (forall|i: int|
        0 <= i < s.commitments.len() && (#[trigger] s.commitments[i]).revealed ==> find_user(
            s.users,
            s.commitments[i].governance,
            s.commitments[i].voter,
        ) is Some)
    &&& (forall|i: int|
        0 <= i < s.commitments.len() ==> find_proposal(
            s.proposals,
            (#[trigger] s.commitments[i]).governance,
            s.commitments[i].title,
        ) is Some)
}

/// Registering a governance: fails when the name is taken, otherwise appends
/// the record.
pub open spec fn create_governance_t(s: SystemView, name: Seq<char>) -> Result<
    SystemView,
    VotingErrorCode,
> {
    if find_governance(s.governances, name) is Some {
        Err(VotingErrorCode::AlreadyExists)
    } else {
        Ok(SystemView { governances: s.governances.push(GovernanceView { name }), ..s })
    }
}

/// Joining a governance: it must exist, and the member must not have joined
/// it before; the new member starts with zero points.
pub open spec fn join_t(s: SystemView, governance: Seq<char>, owner: Seq<char>) -> Result<
    SystemView,
    VotingErrorCode,
> {
    if find_governance(s.governances, governance) is None {
        Err(VotingErrorCode::NotFound)
    } else if find_user(s.users, governance, owner) is Some {
        Err(VotingErrorCode::AlreadyExists)
    } else {
        Ok(SystemView { users: s.users.push(UserView { governance, owner, points: 0 }), ..s })
    }
}

/// Creating a proposal: the governance must exist and the title must be new
/// under it; the proposal starts with zeroed tallies and an unopened window.
pub open spec fn create_proposal_t(s: SystemView, governance: Seq<char>, title: Seq<char>) -> Result<
    SystemView,
    VotingErrorCode,
> {
    if find_governance(s.governances, governance) is None {
        Err(VotingErrorCode::NotFound)
    } else if find_proposal(s.proposals, governance, title) is Some {
        Err(VotingErrorCode::AlreadyExists)
    } else {
        Ok(
            SystemView {
                proposals: s.proposals.push(
                    ProposalView {
                        governance,
                        title,
                        votes_for: 0,
                        votes_against: 0,
                        start: 0,
                        end: 0,
                    },
                ),
                ..s
            },
        )
    }
}

/// Opening a proposal's voting window: sets `start` to the current time and
/// `end` to the supplied deadline. No guard prevents reopening a window that
/// was already opened; callers are expected to supply a future deadline.
pub open spec fn start_vote_t(
    s: SystemView,
    governance: Seq<char>,
    title: Seq<char>,
    now: int,
    end: int,
) -> Result<SystemView, VotingErrorCode> {
    match find_proposal(s.proposals, governance, title) {
        None => Err(VotingErrorCode::NotFound),
        Some(i) => Ok(
            SystemView {
                proposals: s.proposals.update(
                    i,
                    ProposalView { start: now, end, ..s.proposals[i] },
                ),
                ..s
            },
        ),
    }
}

/// Committing a vote: the proposal must exist, its window must be open
/// (`start != 0` and `start <= now < end`), and the voter must not have
/// committed on it before. The digest is stored verbatim.
pub open spec fn commit_vote_t(
    s: SystemView,
    governance: Seq<char>,
    title: Seq<char>,
    voter: Seq<char>,
    digest: Seq<char>,
    now: int,
) -> Result<SystemView, VotingErrorCode> {
    match find_proposal(s.proposals, governance, title) {
        None => Err(VotingErrorCode::NotFound),
        Some(i) => {
            let p = s.proposals[i];
            if p.start == 0 || now < p.start {
                Err(VotingErrorCode::NotStarted)
            } else if now >= p.end {
                Err(VotingErrorCode::VotingEnded)
            } else if find_commitment(s.commitments, governance, title, voter) is Some {
                Err(VotingErrorCode::AlreadyExists)
            } else {
                Ok(
                    SystemView {
                        commitments: s.commitments.push(
                            CommitmentView {
                                governance,
                                title,
                                voter,
                                commitment: digest,
                                revealed: false,
                            },
                        ),
                        ..s
                    },
                )
            }
        },
    }
}

/// Revealing a vote: the proposal must exist, its window must have opened and
/// closed (`start != 0` and `now >= end`), an unconsumed commitment by the
/// voter must exist, the recomputed digest must equal the stored one, and the
/// voter must be a member. On success the matching tally and the member's
/// points each grow by one and the commitment is consumed, so a second reveal
/// of it reports `NotFound`.
pub open spec fn reveal_vote_t(
    s: SystemView,
    governance: Seq<char>,
    title: Seq<char>,
    voter: Seq<char>,
    vote: bool,
    salt: Seq<char>,
    now: int,
) -> Result<SystemView, VotingErrorCode> {
    match find_proposal(s.proposals, governance, title) {
        None => Err(VotingErrorCode::NotFound),
        Some(i) => {
            let p = s.proposals[i];
            if p.start == 0 || now < p.end {
                Err(VotingErrorCode::VotingNotEnded)
            } else {
                match find_commitment(s.commitments, governance, title, voter) {
                    None => Err(VotingErrorCode::NotFound),
                    Some(ci) => {
                        let c = s.commitments[ci];
                        if c.revealed {
                            Err(VotingErrorCode::NotFound)
                        } else if c.commitment != commitment_of(vote, salt) {
                            Err(VotingErrorCode::InvalidCommitment)
                        } else {
                            match find_user(s.users, governance, voter) {
                                None => Err(VotingErrorCode::NotFound),
                                Some(ui) => Ok(
                                    SystemView {
                                        proposals: s.proposals.update(
                                            i,
                                            if vote {
                                                ProposalView { votes_for: p.votes_for + 1, ..p }
                                            } else {
                                                ProposalView {
                                                    votes_against: p.votes_against + 1,
                                                    ..p
                                                }
                                            },
                                        ),
                                        commitments: s.commitments.update(
                                            ci,
                                            CommitmentView { revealed: true, ..c },
                                        ),
                                        users: s.users.update(
                                            ui,
                                            UserView {
                                                points: s.users[ui].points + 1,
                                                ..s.users[ui]
                                            },
                                        ),
                                        ..s
                                    },
                                ),
                            }
                        }
                    },
                }
            }
        },
    }
}

/// Reading a proposal's tally: `(votes_for, votes_against)`.
pub open spec fn get_result_t(s: SystemView, governance: Seq<char>, title: Seq<char>) -> Result<
    (int, int),
    VotingErrorCode,
> {
    match find_proposal(s.proposals, governance, title) {
        None => Err(VotingErrorCode::NotFound),
        Some(i) => Ok((s.proposals[i].votes_for, s.proposals[i].votes_against)),
    }
}

} // verus!
