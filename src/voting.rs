use vstd::prelude::*;
use crate::digest::{ballot_receipt_of, generate_ballot_receipt};
use crate::errors::ErrorCode;
use crate::keys::Pubkey;
use crate::state::{Ballot, Candidate, Election, VoterCredential};

verus! {

/// Whether `now` lies in the election's voting window, both ends included.
pub open spec fn in_voting_period(election: Election, now: i64) -> bool {
    election.start_time <= now <= election.end_time
}

/// The first precondition of casting a vote that fails, if any.
pub open spec fn cast_vote_error(
    election: Election,
    credential: VoterCredential,
    candidate: Candidate,
    now: i64,
) -> Option<ErrorCode> {
    if !election.is_active {
        Some(ErrorCode::ElectionNotActive)
    } else if !in_voting_period(election, now) {
        Some(ErrorCode::VotingPeriodInvalid)
    } else if credential.has_voted {
        Some(ErrorCode::AlreadyVoted)
    } else if !credential.is_verified {
        Some(ErrorCode::VoterNotVerified)
    } else if candidate.vote_count == u64::MAX {
        Some(ErrorCode::Overflow)
    } else if election.total_votes_cast == u64::MAX {
        Some(ErrorCode::Overflow)
    } else {
        None
    }
}

/// Checks the preconditions of casting a vote, in order.
pub fn cast_vote_check(
    election: &Election,
    credential: &VoterCredential,
    candidate: &Candidate,
    now: i64,
) -> (r: Result<(), ErrorCode>)
    ensures
        r is Err <==> cast_vote_error(*election, *credential, *candidate, now) is Some,
        r matches Err(e) ==> cast_vote_error(*election, *credential, *candidate, now) == Some(e),
{
    if !election.is_active {
        return Err(ErrorCode::ElectionNotActive);
    }
    if !(now >= election.start_time && now <= election.end_time) {
        return Err(ErrorCode::VotingPeriodInvalid);
    }
    if credential.has_voted {
        return Err(ErrorCode::AlreadyVoted);
    }
    if !credential.is_verified {
        return Err(ErrorCode::VoterNotVerified);
    }
    if candidate.vote_count == u64::MAX {
        return Err(ErrorCode::Overflow);
    }
    if election.total_votes_cast == u64::MAX {
        return Err(ErrorCode::Overflow);
    }
    Ok(())
}

/// The ballot that a vote cast at `now` records: the next sequence number
/// of the election, and a receipt bound to the voter's verification code.
pub open spec fn recorded_ballot(
    b: Ballot,
    election: Election,
    credential: VoterCredential,
    voter: Pubkey,
    election_key: Pubkey,
    candidate_key: Pubkey,
    bump: u8,
    encrypted_vote_data: Seq<u8>,
    now: i64,
) -> bool {
    &&& b.election@ == election_key@
    &&& b.candidate@ == candidate_key@
    &&& b.encrypted_vote_data@ == encrypted_vote_data
    &&& b.timestamp == now
    &&& b.ballot_sequence == election.total_votes_cast
    &&& b.verification_receipt@ == ballot_receipt_of(
        voter@,
        credential.verification_code@,
        now,
    )
    &&& b.bump == bump
}

/// Casts `voter`'s vote for `candidate` in `election` at `now`. On success
/// the credential is marked as voted, a ballot is returned that carries no
/// voter identity, and the candidate's tally and the election's vote count
/// each go up by one. On failure nothing changes.
pub fn cast_vote(
    election: &mut Election,
    credential: &mut VoterCredential,
    candidate: &mut Candidate,
    voter: Pubkey,
    election_key: Pubkey,
    candidate_key: Pubkey,
    bump: u8,
    encrypted_vote_data: [u8; 32],
    now: i64,
) -> (r: Result<Ballot, ErrorCode>)
    ensures
        r is Err <==> cast_vote_error(*old(election), *old(credential), *old(candidate), now) is Some,
        r matches Err(e) ==> cast_vote_error(*old(election), *old(credential), *old(candidate), now)
            == Some(e),
        r is Err ==> {
            &&& *final(election) == *old(election)
            &&& *final(credential) == *old(credential)
            &&& *final(candidate) == *old(candidate)
        },
        r matches Ok(b) ==> recorded_ballot(
            b,
            *old(election),
            *old(credential),
            voter,
            election_key,
            candidate_key,
            bump,
            encrypted_vote_data@,
            now,
        ),
        r is Ok ==> {
            &&& *final(credential) == (VoterCredential {
                has_voted: true,
                vote_timestamp: Some(now),
                ..*old(credential)
            })
            &&& *final(candidate) == (Candidate {
                vote_count: (old(candidate).vote_count + 1) as u64,
                ..*old(candidate)
            })
            &&& *final(election) == (Election {
                total_votes_cast: (old(election).total_votes_cast + 1) as u64,
                ..*old(election)
            })
        },
{
    if let Err(e) = cast_vote_check(election, credential, candidate, now) {
        return Err(e);
    }
    let vote_count = candidate.vote_count + 1;
    let total_votes_cast = election.total_votes_cast + 1;
    let verification_receipt = generate_ballot_receipt(
        voter,
        credential.verification_code.as_str(),
        now,
    );
    let ballot = Ballot {
        election: election_key,
        candidate: candidate_key,
        encrypted_vote_data,
        timestamp: now,
        ballot_sequence: election.total_votes_cast,
        verification_receipt,
        bump,
    };
    credential.has_voted = true;
    credential.vote_timestamp = Some(now);
    candidate.vote_count = vote_count;
    election.total_votes_cast = total_votes_cast;
    Ok(ballot)
}

} // verus!
