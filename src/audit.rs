use vstd::prelude::*;
use vstd::string::{StrSliceExecFns, StringExecFns};
use crate::digest::{ballot_receipt_of, generate_ballot_receipt};
use crate::keys::Pubkey;
use crate::state::{AuditData, Ballot, ReceiptVerification, VoterCredential};

verus! {

/// Character-wise equality of two texts.
pub fn text_eq(a: &str, b: &str) -> (r: bool)
    ensures
        r == (a@ == b@),
{
    let n = a.unicode_len();
    if n != b.unicode_len() {
        return false;
    }
    let mut i: usize = 0;
    while i < n
        invariant
            n == a@.len(),
            n == b@.len(),
            i <= n,
            forall|j: int| 0 <= j < i ==> a@[j] == b@[j],
        decreases n - i,
    {
        if a.get_char(i) != b.get_char(i) {
            return false;
        }
        i = i + 1;
    }
    assert(a@ =~= b@);
    true
}

/// The identity-verification evidence of a credential, for a commissioner
/// checking the oracle's integrity. Nothing is modified.
pub fn audit_verification(voter_credential: &VoterCredential) -> (r: AuditData)
    ensures
        r.voter_nik_hash == voter_credential.voter_nik_hash,
        r.biometric_hash == voter_credential.biometric_hash,
        r.ai_confidence_score == voter_credential.ai_confidence_score,
        r.verification_timestamp == voter_credential.verification_timestamp,
        r.has_voted == voter_credential.has_voted,
        r.is_verified == voter_credential.is_verified,
{
    AuditData {
        voter_nik_hash: voter_credential.voter_nik_hash,
        biometric_hash: voter_credential.biometric_hash,
        ai_confidence_score: voter_credential.ai_confidence_score,
        verification_timestamp: voter_credential.verification_timestamp,
        has_voted: voter_credential.has_voted,
        is_verified: voter_credential.is_verified,
    }
}

/// Whether `ballot` belongs to the credential's election and carries the
/// receipt that `voter` with this credential would have been given for a
/// vote at the ballot's time.
pub open spec fn receipt_matches(voter: Pubkey, credential: VoterCredential, ballot: Ballot) -> bool {
    &&& ballot.election@ == credential.election@
    &&& ballot.verification_receipt@ == ballot_receipt_of(
        voter@,
        credential.verification_code@,
        ballot.timestamp,
    )
}

/// Lets `voter` confirm that `ballot` was recorded for them: the receipt is
/// derived again from the credential and compared with the ballot's.
pub fn verify_ballot_receipt(voter: Pubkey, voter_credential: &VoterCredential, ballot: &Ballot) -> (r:
    ReceiptVerification)
    ensures
        r.is_valid == receipt_matches(voter, *voter_credential, *ballot),
        r.ballot_sequence == ballot.ballot_sequence,
        r.timestamp == ballot.timestamp,
        r.verification_code@ == voter_credential.verification_code@,
{
    let expected = generate_ballot_receipt(
        voter,
        voter_credential.verification_code.as_str(),
        ballot.timestamp,
    );
    let is_valid = ballot.election.equals(&voter_credential.election) && text_eq(
        expected.as_str(),
        ballot.verification_receipt.as_str(),
    );
    ReceiptVerification {
        is_valid,
        ballot_sequence: ballot.ballot_sequence,
        timestamp: ballot.timestamp,
        verification_code: String::from_str(voter_credential.verification_code.as_str()),
    }
}

} // verus!
