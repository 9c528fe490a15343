use vstd::prelude::*;
use vstd::string::StringExecFns;

verus! {

/// The digest string that hashing a preimage yields: SHA-256 of the
/// preimage's UTF-8 bytes, rendered in base58. The UTF-8 bytes are determined
/// by the characters, so the digest is a function of the character sequence
/// alone; its value is not stated here, only used as a name that the
/// contracts below share.
pub uninterp spec fn digest_of(preimage: Seq<char>) -> Seq<char>;

/// The canonical textual rendering of a vote choice: `"true"` or `"false"`.
pub open spec fn vote_text(vote: bool) -> Seq<char> {
    if vote {
        "true"@
    } else {
        "false"@
    }
}

/// The digest a voter commits to: the hash of the vote's textual rendering
/// concatenated with the salt, with no separator.
pub open spec fn commitment_of(vote: bool, salt: Seq<char>) -> Seq<char> {
    digest_of(vote_text(vote) + salt)
}

/// Relies on `solana_program::hash::hash` (SHA-256 over the input bytes) and
/// on the `Display` of `solana_program::hash::Hash` (base58 of the 32 digest
/// bytes): both depend on the input alone, so the result is `digest_of` of
/// the preimage's characters.
#[verifier::external_body]
fn hash_to_text(preimage: &str) -> (r: String)
    ensures
        r@ == digest_of(preimage@),
{
    solana_program::hash::hash(preimage.as_bytes()).to_string()
}

/// Computes the commitment digest for a vote and a salt, exactly as a reveal
/// later recomputes it.
pub fn make_commitment(vote: bool, salt: &str) -> (r: String)
    ensures
        r@ == commitment_of(vote, salt@),
{
    let mut preimage = if vote {
        String::from_str("true")
    } else {
        String::from_str("false")
    };
    preimage.append(salt);
    hash_to_text(preimage.as_str())
}

} // verus!
