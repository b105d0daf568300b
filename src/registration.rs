use vstd::prelude::*;
use vstd::string::StrSliceExecFns;
use vstd::utf8::encode_utf8;
use crate::digest::{generate_verification_code, sha256_digest, sha256_of, verification_code_of};
use crate::errors::ErrorCode;
use crate::keys::Pubkey;
use crate::state::{
    Candidate, Election, VoterCredential, MAX_CONFIDENCE_SCORE, MAX_NAME_LEN, MAX_PHOTO_REF_LEN,
    NIK_DIGITS,
};

verus! {

/// The length of `s` in UTF-8 bytes.
pub fn byte_len(s: &str) -> (r: usize)
    ensures
        r as nat == encode_utf8(s@).len(),
{
    s.as_bytes().len()
}

/// A national identity number is exactly sixteen decimal digits.
pub open spec fn nik_ok(nik: Seq<char>) -> bool {
    &&& nik.len() == NIK_DIGITS
    &&& forall|i: int| 0 <= i < nik.len() ==> '0' <= #[trigger] nik[i] <= '9'
}

pub fn is_valid_nik(nik: &str) -> (r: bool)
    ensures
        r == nik_ok(nik@),
{
    let n = nik.unicode_len();
    if n != NIK_DIGITS {
        return false;
    }
    let mut i: usize = 0;
    while i < n
        invariant
            n == nik@.len(),
            i <= n,
            forall|j: int| 0 <= j < i ==> '0' <= #[trigger] nik@[j] <= '9',
        decreases n - i,
    {
        let c = nik.get_char(i);
        if c < '0' || c > '9' {
            return false;
        }
        i = i + 1;
    }
    true
}

/// The first precondition of candidate registration that fails, if any.
pub open spec fn register_candidate_error(election: Election, name: Seq<u8>) -> Option<ErrorCode> {
    if name.len() > MAX_NAME_LEN {
        Some(ErrorCode::NameTooLong)
    } else if election.is_active {
        Some(ErrorCode::ElectionAlreadyActive)
    } else if election.is_finalized {
        Some(ErrorCode::RegistrationClosed)
    } else {
        None
    }
}

/// Registers a candidate of `election` (whose address is `election_key`)
/// with a zero tally. Registration is open only while the election is a
/// draft: neither active nor finalized.
pub fn register_candidate(
    election: &Election,
    election_key: Pubkey,
    bump: u8,
    candidate_name: String,
    candidate_id: u32,
) -> (r: Result<Candidate, ErrorCode>)
    ensures
        r is Err <==> register_candidate_error(*election, encode_utf8(candidate_name@)) is Some,
        r matches Err(e) ==> register_candidate_error(*election, encode_utf8(candidate_name@))
            == Some(e),
        r matches Ok(c) ==> {
            &&& c.election@ == election_key@
            &&& c.candidate_id == candidate_id
            &&& c.candidate_name@ == candidate_name@
            &&& c.vote_count == 0
            &&& c.bump == bump
        },
{
    if byte_len(candidate_name.as_str()) > MAX_NAME_LEN {
        return Err(ErrorCode::NameTooLong);
    }
    if election.is_active {
        return Err(ErrorCode::ElectionAlreadyActive);
    }
    if election.is_finalized {
        return Err(ErrorCode::RegistrationClosed);
    }
    Ok(Candidate { election: election_key, candidate_id, candidate_name, vote_count: 0, bump })
}

/// The first precondition of voter verification that fails, if any.
pub open spec fn verify_voter_error(
    election: Election,
    nik: Seq<char>,
    photo_ref: Seq<u8>,
    ai_confidence_score: u8,
    now: i64,
) -> Option<ErrorCode> {
    if !nik_ok(nik) {
        Some(ErrorCode::InvalidNIK)
    } else if photo_ref.len() > MAX_PHOTO_REF_LEN {
        Some(ErrorCode::InvalidIPFSHash)
    } else if ai_confidence_score > MAX_CONFIDENCE_SCORE {
        Some(ErrorCode::InvalidConfidenceScore)
    } else if now >= election.start_time || election.is_finalized {
        Some(ErrorCode::RegistrationClosed)
    } else if election.total_registered_voters == u64::MAX {
        Some(ErrorCode::Overflow)
    } else {
        None
    }
}

/// Checks the preconditions of voter verification, in order.
pub fn verify_voter_check(
    election: &Election,
    voter_nik: &str,
    photo_ipfs_hash: &str,
    ai_confidence_score: u8,
    now: i64,
) -> (r: Result<(), ErrorCode>)
    ensures
        r is Err <==> verify_voter_error(
            *election,
            voter_nik@,
            encode_utf8(photo_ipfs_hash@),
            ai_confidence_score,
            now,
        ) is Some,
        r matches Err(e) ==> verify_voter_error(
            *election,
            voter_nik@,
            encode_utf8(photo_ipfs_hash@),
            ai_confidence_score,
            now,
        ) == Some(e),
{
    if !is_valid_nik(voter_nik) {
        return Err(ErrorCode::InvalidNIK);
    }
    if byte_len(photo_ipfs_hash) > MAX_PHOTO_REF_LEN {
        return Err(ErrorCode::InvalidIPFSHash);
    }
    if ai_confidence_score > MAX_CONFIDENCE_SCORE {
        return Err(ErrorCode::InvalidConfidenceScore);
    }
    if now >= election.start_time || election.is_finalized {
        return Err(ErrorCode::RegistrationClosed);
    }
    if election.total_registered_voters == u64::MAX {
        return Err(ErrorCode::Overflow);
    }
    Ok(())
}

/// The credential that verification writes for `voter`.
pub open spec fn issued_credential(
    c: VoterCredential,
    election_key: Pubkey,
    voter: Pubkey,
    bump: u8,
    nik: Seq<char>,
    biometric_hash: Seq<u8>,
    photo_ref: Seq<char>,
    verification_timestamp: i64,
    ai_confidence_score: u8,
) -> bool {
    &&& c.election@ == election_key@
    &&& c.voter_authority@ == voter@
    &&& c.voter_nik_hash@ == sha256_of(encode_utf8(nik))
    &&& c.biometric_hash@ == biometric_hash
    &&& c.photo_ipfs_hash@ == photo_ref
    &&& c.is_verified
    &&& !c.has_voted
    &&& c.verification_timestamp == verification_timestamp
    &&& c.vote_timestamp is None
    &&& c.ai_confidence_score == ai_confidence_score
    &&& c.verification_code@ == verification_code_of(voter@, nik, verification_timestamp)
    &&& c.bump == bump
}

/// Verifies a voter of `election` (whose address is `election_key`) from
/// the identity oracle's attestation, before the election starts. The
/// credential keeps only the hash of the national identity number, and the
/// election's registered-voter counter goes up by one. On failure the
/// election is unchanged.
pub fn verify_voter(
    election: &mut Election,
    election_key: Pubkey,
    voter: Pubkey,
    bump: u8,
    voter_nik: String,
    biometric_hash: [u8; 32],
    photo_ipfs_hash: String,
    verification_timestamp: i64,
    ai_confidence_score: u8,
    now: i64,
) -> (r: Result<VoterCredential, ErrorCode>)
    ensures
        r is Err <==> verify_voter_error(
            *old(election),
            voter_nik@,
            encode_utf8(photo_ipfs_hash@),
            ai_confidence_score,
            now,
        ) is Some,
        r matches Err(e) ==> verify_voter_error(
            *old(election),
            voter_nik@,
            encode_utf8(photo_ipfs_hash@),
            ai_confidence_score,
            now,
        ) == Some(e),
        r is Err ==> *final(election) == *old(election),
        r matches Ok(c) ==> issued_credential(
            c,
            election_key,
            voter,
            bump,
            voter_nik@,
            biometric_hash@,
            photo_ipfs_hash@,
            verification_timestamp,
            ai_confidence_score,
        ),
        r is Ok ==> *final(election) == (Election {
            total_registered_voters: (old(election).total_registered_voters + 1) as u64,
            ..*old(election)
        }),
{
    if let Err(e) = verify_voter_check(
        election,
        voter_nik.as_str(),
        photo_ipfs_hash.as_str(),
        ai_confidence_score,
        now,
    ) {
        return Err(e);
    }
    let registered = election.total_registered_voters + 1;
    let voter_nik_hash = sha256_digest(voter_nik.as_str().as_bytes());
    let verification_code = generate_verification_code(
        voter,
        voter_nik.as_str(),
        verification_timestamp,
    );
    election.total_registered_voters = registered;
    Ok(VoterCredential {
        election: election_key,
        voter_authority: voter,
        voter_nik_hash,
        biometric_hash,
        photo_ipfs_hash,
        is_verified: true,
        has_voted: false,
        verification_timestamp,
        vote_timestamp: None,
        ai_confidence_score,
        verification_code,
        bump,
    })
}

} // verus!
