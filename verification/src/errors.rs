use vstd::prelude::*;

verus! {

/// The failure kinds of the voting protocol.
///
/// Every operation that rejects its input reports exactly one of these, and
/// the operation's contract says on which inputs each kind is returned.
#[derive(Clone, Copy, Debug, PartialEq, Eq, Structural)]
pub enum VotingErrorCode {
    /// A record with the same key already exists: a duplicate governance
    /// name, a member joining twice, a duplicate proposal title, or a second
    /// commitment by the same voter on the same proposal.
    AlreadyExists,
    /// A referenced governance, proposal, commitment or member is absent.
    NotFound,
    /// A commitment was attempted before the proposal's voting window opened.
    NotStarted,
    /// A commitment was attempted at or after the voting window's end.
    VotingEnded,
    /// A reveal was attempted before the voting window closed.
    VotingNotEnded,
    /// The revealed vote and salt do not match the stored commitment digest.
    InvalidCommitment,
}

} // verus!
