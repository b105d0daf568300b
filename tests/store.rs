use evoting::errors::ErrorCode;
use evoting::keys::{credential_address, election_address, Pubkey};
use evoting::ledger::{Ledger, LedgerError};

const T0: i64 = 1_900_000_000;
const HOUR: i64 = 3600;
const WEEK: i64 = 7 * 24 * HOUR;

fn key(n: u8) -> Pubkey {
    Pubkey::new_from_array([n; 32])
}

fn program() -> Pubkey {
    key(200)
}

fn nik(n: u8) -> String {
    format!("31712345678900{:02}", n)
}

fn setup() -> (Ledger, Pubkey) {
    let mut ledger = Ledger::new(program());
    let election = ledger
        .create_election(
            key(1),
            "City Council 2029".to_string(),
            T0,
            T0 + WEEK,
            vec![key(11), key(12), key(13)],
            2,
        )
        .unwrap();
    (ledger, election)
}

fn register_voter(ledger: &mut Ledger, election: Pubkey, voter: u8) -> Result<Pubkey, LedgerError> {
    ledger.verify_voter(
        key(voter),
        election,
        nik(voter),
        [voter; 32],
        format!("QmEvidence{}", voter),
        T0 - 2 * HOUR,
        92,
        T0 - HOUR,
    )
}

#[test]
fn city_council_scenario() {
    let (mut ledger, election) = setup();
    let derived = election_address(&program(), "City Council 2029").unwrap().0;
    assert!(derived.equals(&election));
    assert!(ledger.register_candidate(key(1), election, "Ana".to_string(), 1).is_ok());
    assert!(ledger.register_candidate(key(1), election, "Budi".to_string(), 2).is_ok());
    assert!(register_voter(&mut ledger, election, 50).is_ok());
    assert_eq!(ledger.elections[0].holdings.len(), 1);
    assert_eq!(ledger.elections[0].holdings[0].amount, 1);
    assert_eq!(ledger.elections[0].data.total_registered_voters, 1);
    assert!(ledger.activate_election(key(11), election, T0).is_ok());
    assert_eq!(
        ledger.register_candidate(key(1), election, "Citra".to_string(), 3).err(),
        Some(LedgerError::Program(ErrorCode::ElectionAlreadyActive))
    );
    assert_eq!(ledger.cast_vote(key(50), election, 1, [9u8; 32], T0 + HOUR), Ok(0));
    assert_eq!(ledger.elections[0].candidates[0].data.vote_count, 1);
    assert_eq!(ledger.elections[0].candidates[1].data.vote_count, 0);
    assert_eq!(ledger.elections[0].holdings[0].amount, 0);
    assert_eq!(
        ledger.cast_vote(key(50), election, 1, [9u8; 32], T0 + 2 * HOUR).err(),
        Some(LedgerError::Program(ErrorCode::AlreadyVoted))
    );
    assert_eq!(
        ledger.finalize_election(key(12), election, T0 + WEEK - 1).err(),
        Some(LedgerError::Program(ErrorCode::ElectionStillActive))
    );
    assert!(ledger.finalize_election(key(12), election, T0 + WEEK + 1).is_ok());
    assert!(!ledger.elections[0].data.is_active);
    assert_eq!(
        ledger.activate_election(key(11), election, T0 + WEEK + 2).err(),
        Some(LedgerError::Program(ErrorCode::VotingPeriodInvalid))
    );
    assert_eq!(
        ledger.register_candidate(key(1), election, "Citra".to_string(), 3).err(),
        Some(LedgerError::Program(ErrorCode::RegistrationClosed))
    );
}

#[test]
fn ballot_sequences_are_gapless() {
    let (mut ledger, election) = setup();
    ledger.register_candidate(key(1), election, "Ana".to_string(), 1).unwrap();
    ledger.register_candidate(key(1), election, "Budi".to_string(), 2).unwrap();
    for v in 50..54u8 {
        register_voter(&mut ledger, election, v).unwrap();
    }
    ledger.activate_election(key(13), election, T0).unwrap();
    let mut seen = Vec::new();
    for v in 50..54u8 {
        seen.push(ledger.cast_vote(key(v), election, 1 + (v as u32 % 2), [v; 32], T0 + v as i64).unwrap());
    }
    assert_eq!(seen, vec![0, 1, 2, 3]);
    let seqs: Vec<u64> = ledger.elections[0].ballots.iter().map(|b| b.data.ballot_sequence).collect();
    assert_eq!(seqs, vec![0, 1, 2, 3]);
    assert_eq!(ledger.elections[0].data.total_votes_cast, 4);
    assert_eq!(ledger.elections[0].candidates[0].data.vote_count, 2);
    assert_eq!(ledger.elections[0].candidates[1].data.vote_count, 2);
}

#[test]
fn second_credential_is_refused() {
    let (mut ledger, election) = setup();
    let first = register_voter(&mut ledger, election, 50).unwrap();
    let expected = credential_address(&program(), &election, &key(50)).unwrap().0;
    assert!(first.equals(&expected));
    assert_eq!(
        register_voter(&mut ledger, election, 50).err(),
        Some(LedgerError::AccountAlreadyInUse)
    );
    assert_eq!(ledger.elections[0].credentials.len(), 1);
    assert_eq!(ledger.elections[0].holdings[0].amount, 1);
    assert_eq!(ledger.elections[0].data.total_registered_voters, 1);
}

#[test]
fn replay_is_refused_by_flag_and_by_token() {
    let (mut ledger, election) = setup();
    ledger.register_candidate(key(1), election, "Ana".to_string(), 1).unwrap();
    register_voter(&mut ledger, election, 50).unwrap();
    ledger.activate_election(key(11), election, T0).unwrap();
    assert_eq!(ledger.cast_vote(key(50), election, 1, [1u8; 32], T0 + 1), Ok(0));
    assert!(ledger.elections[0].credentials[0].data.has_voted);
    assert_eq!(
        ledger.cast_vote(key(50), election, 1, [1u8; 32], T0 + 2).err(),
        Some(LedgerError::Program(ErrorCode::AlreadyVoted))
    );
    // with the flag cleared, the spent voting-rights unit still stops a replay
    ledger.elections[0].credentials[0].data.has_voted = false;
    assert_eq!(
        ledger.cast_vote(key(50), election, 1, [1u8; 32], T0 + 3).err(),
        Some(LedgerError::InsufficientFunds)
    );
    assert_eq!(ledger.elections[0].data.total_votes_cast, 1);
    assert_eq!(ledger.elections[0].ballots.len(), 1);
}

#[test]
fn receipts_through_the_store() {
    let (mut ledger, election) = setup();
    ledger.register_candidate(key(1), election, "Ana".to_string(), 1).unwrap();
    register_voter(&mut ledger, election, 50).unwrap();
    register_voter(&mut ledger, election, 51).unwrap();
    ledger.activate_election(key(11), election, T0).unwrap();
    ledger.cast_vote(key(50), election, 1, [1u8; 32], T0 + 10).unwrap();
    let mine = ledger.verify_ballot_receipt(key(50), election, 0).unwrap();
    assert!(mine.is_valid);
    assert_eq!(mine.ballot_sequence, 0);
    assert_eq!(mine.timestamp, T0 + 10);
    assert_eq!(mine.verification_code, ledger.elections[0].credentials[0].data.verification_code);
    let theirs = ledger.verify_ballot_receipt(key(51), election, 0).unwrap();
    assert!(!theirs.is_valid);
    assert_eq!(
        ledger.verify_ballot_receipt(key(50), election, 1).err(),
        Some(LedgerError::AccountNotFound)
    );
    assert_eq!(
        ledger.verify_ballot_receipt(key(52), election, 0).err(),
        Some(LedgerError::AccountNotFound)
    );
}

#[test]
fn store_refusals() {
    let (mut ledger, election) = setup();
    assert_eq!(
        ledger
            .create_election(key(1), "City Council 2029".to_string(), 1, 2, vec![], 0)
            .err(),
        Some(LedgerError::AccountAlreadyInUse)
    );
    assert_eq!(
        ledger.create_election(key(1), "Other".to_string(), 2, 1, vec![], 0).err(),
        Some(LedgerError::Program(ErrorCode::InvalidElectionPeriod))
    );
    assert_eq!(
        ledger.create_election(key(1), "n".repeat(33), 1, 2, vec![], 0).err(),
        Some(LedgerError::AddressDerivationFailed)
    );
    assert_eq!(
        ledger.register_candidate(key(2), election, "Ana".to_string(), 1).err(),
        Some(LedgerError::Unauthorized)
    );
    ledger.register_candidate(key(1), election, "Ana".to_string(), 1).unwrap();
    assert_eq!(
        ledger.register_candidate(key(1), election, "Ana again".to_string(), 1).err(),
        Some(LedgerError::AccountAlreadyInUse)
    );
    assert_eq!(ledger.elections[0].candidates.len(), 1);
    assert_eq!(ledger.elections[0].candidates[0].data.candidate_name, "Ana");
    assert_eq!(
        ledger.activate_election(key(1), election, T0).err(),
        Some(LedgerError::Unauthorized)
    );
    assert_eq!(
        ledger.activate_election(key(11), key(99), T0).err(),
        Some(LedgerError::AccountNotFound)
    );
    assert_eq!(
        ledger.cast_vote(key(50), election, 1, [0u8; 32], T0).err(),
        Some(LedgerError::AccountNotFound)
    );
    register_voter(&mut ledger, election, 50).unwrap();
    assert_eq!(
        ledger.cast_vote(key(50), election, 1, [0u8; 32], T0).err(),
        Some(LedgerError::Program(ErrorCode::ElectionNotActive))
    );
    assert_eq!(
        ledger.cast_vote(key(50), election, 7, [0u8; 32], T0).err(),
        Some(LedgerError::AccountNotFound)
    );
}

#[test]
fn audit_through_the_store() {
    let (mut ledger, election) = setup();
    register_voter(&mut ledger, election, 50).unwrap();
    let a = ledger.audit_verification(key(12), election, key(50)).unwrap();
    assert_eq!(a.ai_confidence_score, 92);
    assert_eq!(a.biometric_hash, [50u8; 32]);
    assert!(a.is_verified);
    assert!(!a.has_voted);
    assert_eq!(
        ledger.audit_verification(key(50), election, key(50)).err(),
        Some(LedgerError::Unauthorized)
    );
    assert_eq!(
        ledger.audit_verification(key(12), election, key(51)).err(),
        Some(LedgerError::AccountNotFound)
    );
}

#[test]
fn derived_addresses_are_deterministic_and_distinct() {
    let a = election_address(&program(), "City Council 2029").unwrap();
    let b = election_address(&program(), "City Council 2029").unwrap();
    assert!(a.0.equals(&b.0));
    assert_eq!(a.1, b.1);
    assert!(!a.0.equals(&program()));
    let other = election_address(&program(), "City Council 2030").unwrap();
    assert!(!a.0.equals(&other.0));
    let under_other_program = election_address(&key(201), "City Council 2029").unwrap();
    assert!(!a.0.equals(&under_other_program.0));
    let cred = credential_address(&program(), &a.0, &key(50)).unwrap().0;
    assert!(!cred.equals(&a.0));
    assert!(!cred.equals(&key(50)));
    assert!(election_address(&program(), &"n".repeat(33)).is_none());
}
