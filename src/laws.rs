use vstd::prelude::*;
use crate::audit::receipt_matches;
use crate::errors::ErrorCode;
use crate::keys::Pubkey;
use crate::lifecycle::initialize_election_error;
use crate::ledger::Ledger;
use crate::state::{Ballot, Candidate, Election, VoterCredential, MAX_COMMISSIONERS, MAX_NAME_LEN};
use crate::voting::{cast_vote_error, in_voting_period, recorded_ballot};

verus! {

/// Creation succeeds whenever the threshold does not exceed the number of
/// commissioners, there are at most ten of them, the start precedes the end and the name fits; the new
/// election is then inactive with both counters at zero, as
/// `initialize_election` states.
pub proof fn lemma_valid_creation_succeeds(
    name: Seq<u8>,
    start_time: i64,
    end_time: i64,
    commissioners: nat,
    required_signatures: u8,
)
    requires
        required_signatures <= commissioners,
        commissioners <= MAX_COMMISSIONERS,
        start_time < end_time,
        name.len() <= MAX_NAME_LEN,
    ensures
        initialize_election_error(name, start_time, end_time, commissioners, required_signatures)
            is None,
{
}

/// In every well-formed store, the ballots of an election carry exactly
/// the sequence numbers 0, 1, ..., total_votes_cast - 1, each once, in the
/// order they were cast.
pub proof fn lemma_ballot_sequences_gapless(ledger: Ledger, k: int)
    requires
        ledger.wf(),
        0 <= k < ledger.elections@.len(),
    ensures
        ledger.elections@[k].ballots@.map_values(|b: crate::ledger::BallotAccount| b.data.ballot_sequence as int)
            == Seq::new(ledger.elections@[k].data.total_votes_cast as nat, |i: int| i),
{
    let acct = ledger.elections@[k];
    assert(acct.wf(ledger.program_id@));
    assert(acct.ballots@.map_values(|b: crate::ledger::BallotAccount| b.data.ballot_sequence as int)
        =~= Seq::new(acct.data.total_votes_cast as nat, |i: int| i));
}

/// In every well-formed store, no voter holds two credentials of the same
/// election.
pub proof fn lemma_one_credential_per_voter(ledger: Ledger, k: int, i: int, j: int)
    requires
        ledger.wf(),
        0 <= k < ledger.elections@.len(),
        0 <= i < ledger.elections@[k].credentials@.len(),
        0 <= j < ledger.elections@[k].credentials@.len(),
        i != j,
    ensures
        ledger.elections@[k].credentials@[i].data.voter_authority@
            != ledger.elections@[k].credentials@[j].data.voter_authority@,
{
    let acct = ledger.elections@[k];
    assert(acct.wf(ledger.program_id@));
    assert(acct.credentials@[i].address@ != acct.credentials@[j].address@);
}

/// A credential that has voted cannot vote again: casting with it fails,
/// and with `AlreadyVoted` whenever the election is active and the time is
/// inside the voting window.
pub proof fn lemma_second_vote_rejected(
    election: Election,
    credential: VoterCredential,
    candidate: Candidate,
    now: i64,
)
    requires
        credential.has_voted,
    ensures
        cast_vote_error(election, credential, candidate, now) is Some,
        election.is_active && in_voting_period(election, now) ==> cast_vote_error(
            election,
            credential,
            candidate,
            now,
        ) == Some(ErrorCode::AlreadyVoted),
{
}

/// A ballot checks out against the credential it was cast with, which
/// belongs to the ballot's election: the receipt derived again from that
/// credential's verification code matches the one the ballot carries,
/// whatever else the credential went through.
pub proof fn lemma_receipt_of_own_ballot(
    ballot: Ballot,
    election: Election,
    credential: VoterCredential,
    later: VoterCredential,
    voter: Pubkey,
    election_key: Pubkey,
    candidate_key: Pubkey,
    bump: u8,
    encrypted_vote_data: Seq<u8>,
    now: i64,
)
    requires
        recorded_ballot(
            ballot,
            election,
            credential,
            voter,
            election_key,
            candidate_key,
            bump,
            encrypted_vote_data,
            now,
        ),
        later.verification_code@ == credential.verification_code@,
        later.election@ == election_key@,
    ensures
        receipt_matches(voter, later, ballot),
{
}

} // verus!
