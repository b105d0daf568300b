use vstd::prelude::*;
use vstd::utf8::encode_utf8;
use crate::errors::ErrorCode;
use crate::keys::Pubkey;
use crate::registration::byte_len;
use crate::state::{Election, MAX_COMMISSIONERS, MAX_NAME_LEN};

verus! {

/// The first precondition of election creation that fails, if any.
pub open spec fn initialize_election_error(
    name: Seq<u8>,
    start_time: i64,
    end_time: i64,
    commissioners: nat,
    required_signatures: u8,
) -> Option<ErrorCode> {
    if commissioners < required_signatures {
        Some(ErrorCode::InvalidCommissionerCount)
    } else if start_time >= end_time {
        Some(ErrorCode::InvalidElectionPeriod)
    } else if name.len() > MAX_NAME_LEN {
        Some(ErrorCode::NameTooLong)
    } else if commissioners > MAX_COMMISSIONERS {
        Some(ErrorCode::InvalidCommissionerCount)
    } else {
        None
    }
}

/// Creates an election in its draft state: inactive, with both counters at
/// zero.
pub fn initialize_election(
    authority: Pubkey,
    bump: u8,
    election_name: String,
    start_time: i64,
    end_time: i64,
    commissioners: Vec<Pubkey>,
    required_signatures: u8,
) -> (r: Result<Election, ErrorCode>)
    ensures
        r is Err <==> initialize_election_error(
            encode_utf8(election_name@),
            start_time,
            end_time,
            commissioners@.len(),
            required_signatures,
        ) is Some,
        r matches Err(e) ==> initialize_election_error(
            encode_utf8(election_name@),
            start_time,
            end_time,
            commissioners@.len(),
            required_signatures,
        ) == Some(e),
        r matches Ok(e) ==> {
            &&& e.authority@ == authority@
            &&& e.election_name@ == election_name@
            &&& e.start_time == start_time
            &&& e.end_time == end_time
            &&& !e.is_active
            &&& !e.is_finalized
            &&& e.total_registered_voters == 0
            &&& e.total_votes_cast == 0
            &&& e.commissioners@ == commissioners@
            &&& e.required_signatures == required_signatures
            &&& e.bump == bump
            &&& e.wf()
        },
{
    if commissioners.len() < required_signatures as usize {
        return Err(ErrorCode::InvalidCommissionerCount);
    }
    if start_time >= end_time {
        return Err(ErrorCode::InvalidElectionPeriod);
    }
    if byte_len(election_name.as_str()) > MAX_NAME_LEN {
        return Err(ErrorCode::NameTooLong);
    }
    if commissioners.len() > MAX_COMMISSIONERS {
        return Err(ErrorCode::InvalidCommissionerCount);
    }
    Ok(Election {
        authority,
        election_name,
        start_time,
        end_time,
        is_active: false,
        is_finalized: false,
        total_registered_voters: 0,
        total_votes_cast: 0,
        commissioners,
        required_signatures,
        bump,
    })
}

/// The first precondition of activation that fails, if any.
pub open spec fn activate_election_error(election: Election, now: i64) -> Option<ErrorCode> {
    if now < election.start_time {
        Some(ErrorCode::ElectionNotStarted)
    } else if election.is_active {
        Some(ErrorCode::ElectionAlreadyActive)
    } else if election.is_finalized {
        Some(ErrorCode::VotingPeriodInvalid)
    } else {
        None
    }
}

/// Checks the preconditions of activation, in order.
pub fn activate_election_check(election: &Election, now: i64) -> (r: Result<(), ErrorCode>)
    ensures
        r is Err <==> activate_election_error(*election, now) is Some,
        r matches Err(e) ==> activate_election_error(*election, now) == Some(e),
{
    if now < election.start_time {
        return Err(ErrorCode::ElectionNotStarted);
    }
    if election.is_active {
        return Err(ErrorCode::ElectionAlreadyActive);
    }
    if election.is_finalized {
        return Err(ErrorCode::VotingPeriodInvalid);
    }
    Ok(())
}

/// Opens voting once the start time has come; a finalized election stays
/// closed.
pub fn activate_election(election: &mut Election, now: i64) -> (r: Result<(), ErrorCode>)
    ensures
        r is Err <==> activate_election_error(*old(election), now) is Some,
        r matches Err(e) ==> activate_election_error(*old(election), now) == Some(e),
        r is Err ==> *final(election) == *old(election),
        r is Ok ==> *final(election) == (Election { is_active: true, ..*old(election) }),
{
    if let Err(e) = activate_election_check(election, now) {
        return Err(e);
    }
    election.is_active = true;
    Ok(())
}

/// The first precondition of finalization that fails, if any.
pub open spec fn finalize_election_error(election: Election, now: i64) -> Option<ErrorCode> {
    if !election.is_active {
        Some(ErrorCode::ElectionNotActive)
    } else if now <= election.end_time {
        Some(ErrorCode::ElectionStillActive)
    } else {
        None
    }
}

/// Checks the preconditions of finalization, in order.
pub fn finalize_election_check(election: &Election, now: i64) -> (r: Result<(), ErrorCode>)
    ensures
        r is Err <==> finalize_election_error(*election, now) is Some,
        r matches Err(e) ==> finalize_election_error(*election, now) == Some(e),
{
    if !election.is_active {
        return Err(ErrorCode::ElectionNotActive);
    }
    if now <= election.end_time {
        return Err(ErrorCode::ElectionStillActive);
    }
    Ok(())
}

/// Closes voting for good once the end time has passed.
pub fn finalize_election(election: &mut Election, now: i64) -> (r: Result<(), ErrorCode>)
    ensures
        r is Err <==> finalize_election_error(*old(election), now) is Some,
        r matches Err(e) ==> finalize_election_error(*old(election), now) == Some(e),
        r is Err ==> *final(election) == *old(election),
        r is Ok ==> *final(election) == (Election {
            is_active: false,
            is_finalized: true,
            ..*old(election)
        }),
{
    if let Err(e) = finalize_election_check(election, now) {
        return Err(e);
    }
    election.is_active = false;
    election.is_finalized = true;
    Ok(())
}

} // verus!
