use vstd::prelude::*;

verus! {

/// The tagged failures of the election program. Every failure aborts the
/// whole operation that raised it.
#[derive(PartialEq, Eq, Structural, Clone, Copy, Debug)]
pub enum ErrorCode {
    InvalidCommissionerCount,
    InvalidElectionPeriod,
    NameTooLong,
    ElectionAlreadyActive,
    ElectionNotActive,
    ElectionNotStarted,
    ElectionStillActive,
    InvalidNIK,
    InvalidIPFSHash,
    InvalidConfidenceScore,
    RegistrationClosed,
    AlreadyVoted,
    VoterNotVerified,
    VotingPeriodInvalid,
    Overflow,
}

} // verus!
