use vstd::prelude::*;
use vstd::utf8::encode_utf8;
use crate::keys::Pubkey;

verus! {

/// Longest election or candidate name, in bytes.
pub const MAX_NAME_LEN: usize = 100;

/// Largest commissioner set.
pub const MAX_COMMISSIONERS: usize = 10;

/// Longest off-chain evidence reference, in bytes.
pub const MAX_PHOTO_REF_LEN: usize = 100;

/// Highest identity-verification confidence score.
pub const MAX_CONFIDENCE_SCORE: u8 = 100;

/// Number of digits in a national identity number.
pub const NIK_DIGITS: usize = 16;

/// The aggregate root: configuration, commissioner set, lifecycle flag and
/// running counters.
pub struct Election {
    pub authority: Pubkey,
    pub election_name: String,
    pub start_time: i64,
    pub end_time: i64,
    pub is_active: bool,
    /// Set once voting has been closed; a finalized election never opens
    /// again.
    pub is_finalized: bool,
    pub total_registered_voters: u64,
    pub total_votes_cast: u64,
    pub commissioners: Vec<Pubkey>,
    pub required_signatures: u8,
    pub bump: u8,
}

impl Election {
    /// What creation establishes and no later operation undoes.
    pub open spec fn wf(&self) -> bool {
        &&& self.start_time < self.end_time
        &&& self.commissioners@.len() >= self.required_signatures
        &&& self.commissioners@.len() <= MAX_COMMISSIONERS
        &&& !(self.is_active && self.is_finalized)
        &&& encode_utf8(self.election_name@).len() <= MAX_NAME_LEN
    }
}

/// One candidate's vote tally, keyed under its election.
pub struct Candidate {
    pub election: Pubkey,
    pub candidate_id: u32,
    pub candidate_name: String,
    pub vote_count: u64,
    pub bump: u8,
}

/// Proof that a voter passed identity verification: hashes of the identity
/// evidence, never the evidence itself.
pub struct VoterCredential {
    pub election: Pubkey,
    pub voter_authority: Pubkey,
    /// SHA-256 of the voter's national identity number.
    pub voter_nik_hash: [u8; 32],
    /// Hash of the combined biometric evidence.
    pub biometric_hash: [u8; 32],
    /// Off-chain reference to the encrypted photo evidence.
    pub photo_ipfs_hash: String,
    pub is_verified: bool,
    pub has_voted: bool,
    pub verification_timestamp: i64,
    pub vote_timestamp: Option<i64>,
    /// Confidence of the identity-verification oracle, 0 to 100.
    pub ai_confidence_score: u8,
    /// Code the voter uses to confirm their registration.
    pub verification_code: String,
    pub bump: u8,
}

/// An anonymous ballot: it holds no voter identity, only its position in
/// the election's sequence.
pub struct Ballot {
    pub election: Pubkey,
    pub candidate: Pubkey,
    pub encrypted_vote_data: [u8; 32],
    pub timestamp: i64,
    pub ballot_sequence: u64,
    /// Receipt the voter can use to confirm the ballot was counted.
    pub verification_receipt: String,
    pub bump: u8,
}

/// A read-only projection of a credential for commissioners.
pub struct AuditData {
    pub voter_nik_hash: [u8; 32],
    pub biometric_hash: [u8; 32],
    pub ai_confidence_score: u8,
    pub verification_timestamp: i64,
    pub has_voted: bool,
    pub is_verified: bool,
}

/// A read-only answer to a voter asking whether a ballot was recorded.
pub struct ReceiptVerification {
    pub is_valid: bool,
    pub ballot_sequence: u64,
    pub timestamp: i64,
    pub verification_code: String,
}

} // verus!
