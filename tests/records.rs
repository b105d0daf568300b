use evoting::audit::{audit_verification, verify_ballot_receipt};
use evoting::counter::Idngenelectevotingsolana;
use evoting::digest::{generate_ballot_receipt, generate_verification_code, truncated};
use evoting::errors::ErrorCode;
use evoting::keys::{u32_le_bytes, u64_le_bytes, Pubkey};
use evoting::lifecycle::{activate_election, finalize_election, initialize_election};
use evoting::registration::{is_valid_nik, register_candidate, verify_voter};
use evoting::state::{Candidate, Election, VoterCredential};
use evoting::voting::cast_vote;

const T0: i64 = 1_900_000_000;
const WEEK: i64 = 7 * 24 * 3600;
const NIK: &str = "3171234567890001";

fn key(n: u8) -> Pubkey {
    Pubkey::new_from_array([n; 32])
}

fn draft() -> Election {
    initialize_election(
        key(1),
        255,
        "City Council 2029".to_string(),
        T0,
        T0 + WEEK,
        vec![key(11), key(12), key(13)],
        2,
    )
    .unwrap()
}

fn candidate(election: &Election) -> Candidate {
    register_candidate(election, key(2), 254, "Ana".to_string(), 1).unwrap()
}

fn credential(election: &mut Election, voter: Pubkey) -> VoterCredential {
    verify_voter(
        election,
        key(2),
        voter,
        253,
        NIK.to_string(),
        [7u8; 32],
        "QmPhotoReference".to_string(),
        T0 - 3600,
        92,
        T0 - 60,
    )
    .unwrap()
}

#[test]
fn create_election_starts_as_draft() {
    let e = draft();
    assert!(!e.is_active);
    assert!(!e.is_finalized);
    assert_eq!(e.total_registered_voters, 0);
    assert_eq!(e.total_votes_cast, 0);
    assert_eq!(e.election_name, "City Council 2029");
    assert_eq!(e.start_time, T0);
    assert_eq!(e.end_time, T0 + WEEK);
    assert_eq!(e.commissioners.len(), 3);
    assert_eq!(e.required_signatures, 2);
    assert_eq!(e.bump, 255);
}

#[test]
fn create_election_threshold_equal_to_commissioners() {
    let e = initialize_election(key(1), 1, "x".to_string(), 0, 1, vec![key(3)], 1);
    assert!(e.is_ok());
}

#[test]
fn create_election_too_few_commissioners() {
    let r = initialize_election(key(1), 1, "x".to_string(), 0, 1, vec![key(3)], 2);
    assert_eq!(r.err(), Some(ErrorCode::InvalidCommissionerCount));
}

#[test]
fn create_election_commissioner_set_bounded() {
    let ten: Vec<Pubkey> = (0..10u8).map(key).collect();
    assert!(initialize_election(key(1), 1, "x".to_string(), 0, 1, ten, 2).is_ok());
    let eleven: Vec<Pubkey> = (0..11u8).map(key).collect();
    let r = initialize_election(key(1), 1, "x".to_string(), 0, 1, eleven, 2);
    assert_eq!(r.err(), Some(ErrorCode::InvalidCommissionerCount));
}

#[test]
fn finalized_election_stays_closed() {
    let mut e = draft();
    activate_election(&mut e, T0).unwrap();
    finalize_election(&mut e, T0 + WEEK + 1).unwrap();
    assert!(e.is_finalized);
    assert!(!e.is_active);
    assert_eq!(activate_election(&mut e, T0 + WEEK + 2).err(), Some(ErrorCode::VotingPeriodInvalid));
    assert!(!e.is_active);
    let r = register_candidate(&e, key(2), 1, "Late".to_string(), 9);
    assert_eq!(r.err(), Some(ErrorCode::RegistrationClosed));
}

#[test]
fn late_draft_can_still_be_activated_and_finalized() {
    let mut e = draft();
    assert!(activate_election(&mut e, T0 + WEEK + 1).is_ok());
    assert!(finalize_election(&mut e, T0 + WEEK + 2).is_ok());
}

#[test]
fn commissioner_bound_is_checked_last() {
    let eleven: Vec<Pubkey> = (0..11u8).map(key).collect();
    let r = initialize_election(key(1), 1, "x".to_string(), 5, 5, eleven.clone(), 2);
    assert_eq!(r.err(), Some(ErrorCode::InvalidElectionPeriod));
    let r = initialize_election(key(1), 1, "a".repeat(101), 0, 1, eleven, 2);
    assert_eq!(r.err(), Some(ErrorCode::NameTooLong));
}

#[test]
fn create_election_bad_period() {
    let r = initialize_election(key(1), 1, "x".to_string(), 5, 5, vec![key(3)], 1);
    assert_eq!(r.err(), Some(ErrorCode::InvalidElectionPeriod));
}

#[test]
fn create_election_name_bounds() {
    let ok = initialize_election(key(1), 1, "a".repeat(100), 0, 1, vec![], 0);
    assert!(ok.is_ok());
    let long = initialize_election(key(1), 1, "a".repeat(101), 0, 1, vec![], 0);
    assert_eq!(long.err(), Some(ErrorCode::NameTooLong));
}

#[test]
fn create_election_errors_come_in_order() {
    let r = initialize_election(key(1), 1, "a".repeat(101), 9, 1, vec![], 1);
    assert_eq!(r.err(), Some(ErrorCode::InvalidCommissionerCount));
    let r = initialize_election(key(1), 1, "a".repeat(101), 9, 1, vec![], 0);
    assert_eq!(r.err(), Some(ErrorCode::InvalidElectionPeriod));
}

#[test]
fn register_candidate_fields() {
    let e = draft();
    let c = candidate(&e);
    assert_eq!(c.election.to_bytes(), [2u8; 32]);
    assert_eq!(c.candidate_id, 1);
    assert_eq!(c.candidate_name, "Ana");
    assert_eq!(c.vote_count, 0);
}

#[test]
fn register_candidate_rejects_long_name_and_active_election() {
    let mut e = draft();
    let r = register_candidate(&e, key(2), 1, "b".repeat(101), 2);
    assert_eq!(r.err(), Some(ErrorCode::NameTooLong));
    activate_election(&mut e, T0).unwrap();
    let r = register_candidate(&e, key(2), 1, "Budi".to_string(), 2);
    assert_eq!(r.err(), Some(ErrorCode::ElectionAlreadyActive));
}

#[test]
fn nik_must_be_sixteen_digits() {
    assert!(is_valid_nik(NIK));
    assert!(!is_valid_nik("317123456789000"));
    assert!(!is_valid_nik("31712345678900012"));
    assert!(!is_valid_nik("317123456789000a"));
    assert!(!is_valid_nik(""));
}

#[test]
fn verify_voter_issues_credential() {
    let mut e = draft();
    let c = credential(&mut e, key(5));
    assert_eq!(e.total_registered_voters, 1);
    assert!(c.is_verified);
    assert!(!c.has_voted);
    assert_eq!(c.vote_timestamp, None);
    assert_eq!(c.ai_confidence_score, 92);
    assert_eq!(c.verification_timestamp, T0 - 3600);
    assert_eq!(c.voter_authority.to_bytes(), [5u8; 32]);
    assert_eq!(c.biometric_hash, [7u8; 32]);
    assert_eq!(c.photo_ipfs_hash, "QmPhotoReference");
    assert_ne!(c.voter_nik_hash.to_vec(), NIK.as_bytes().to_vec());
    assert_eq!(c.verification_code, generate_verification_code(key(5), NIK, T0 - 3600));
    assert_eq!(c.verification_code.chars().count(), 16);
}

fn verify_with(e: &mut Election, nik: &str, photo: String, score: u8, now: i64) -> Option<ErrorCode> {
    verify_voter(e, key(2), key(5), 1, nik.to_string(), [0u8; 32], photo, 0, score, now).err()
}

#[test]
fn verify_voter_errors() {
    let mut e = draft();
    assert_eq!(verify_with(&mut e, "12345", "p".to_string(), 50, 0), Some(ErrorCode::InvalidNIK));
    assert_eq!(verify_with(&mut e, NIK, "p".repeat(101), 50, 0), Some(ErrorCode::InvalidIPFSHash));
    assert_eq!(verify_with(&mut e, NIK, "p".repeat(100), 101, 0), Some(ErrorCode::InvalidConfidenceScore));
    assert_eq!(verify_with(&mut e, NIK, "p".to_string(), 100, T0), Some(ErrorCode::RegistrationClosed));
    e.total_registered_voters = u64::MAX;
    assert_eq!(verify_with(&mut e, NIK, "p".to_string(), 100, T0 - 1), Some(ErrorCode::Overflow));
    assert_eq!(e.total_registered_voters, u64::MAX);
}

#[test]
fn cast_vote_records_anonymous_ballot() {
    let mut e = draft();
    let mut cand = candidate(&e);
    let mut cred = credential(&mut e, key(5));
    activate_election(&mut e, T0).unwrap();
    let b = cast_vote(&mut e, &mut cred, &mut cand, key(5), key(2), key(3), 9, [4u8; 32], T0 + 3600)
        .unwrap();
    assert_eq!(b.ballot_sequence, 0);
    assert_eq!(b.timestamp, T0 + 3600);
    assert_eq!(b.encrypted_vote_data, [4u8; 32]);
    assert_eq!(b.candidate.to_bytes(), [3u8; 32]);
    assert_eq!(b.election.to_bytes(), [2u8; 32]);
    assert_eq!(b.verification_receipt.chars().count(), 32);
    assert_eq!(
        b.verification_receipt,
        generate_ballot_receipt(key(5), &cred.verification_code, T0 + 3600)
    );
    assert!(cred.has_voted);
    assert_eq!(cred.vote_timestamp, Some(T0 + 3600));
    assert_eq!(cand.vote_count, 1);
    assert_eq!(e.total_votes_cast, 1);
}

#[test]
fn cast_vote_errors() {
    let mut e = draft();
    let mut cand = candidate(&e);
    let mut cred = credential(&mut e, key(5));
    let go = |e: &mut Election, cred: &mut VoterCredential, cand: &mut Candidate, now: i64| {
        cast_vote(e, cred, cand, key(5), key(2), key(3), 1, [0u8; 32], now).err()
    };
    assert_eq!(go(&mut e, &mut cred, &mut cand, T0), Some(ErrorCode::ElectionNotActive));
    activate_election(&mut e, T0).unwrap();
    assert_eq!(go(&mut e, &mut cred, &mut cand, T0 - 1), Some(ErrorCode::VotingPeriodInvalid));
    assert_eq!(go(&mut e, &mut cred, &mut cand, T0 + WEEK + 1), Some(ErrorCode::VotingPeriodInvalid));
    cred.is_verified = false;
    assert_eq!(go(&mut e, &mut cred, &mut cand, T0), Some(ErrorCode::VoterNotVerified));
    cred.is_verified = true;
    cand.vote_count = u64::MAX;
    assert_eq!(go(&mut e, &mut cred, &mut cand, T0), Some(ErrorCode::Overflow));
    assert!(!cred.has_voted);
    assert_eq!(e.total_votes_cast, 0);
    cand.vote_count = 0;
    assert_eq!(go(&mut e, &mut cred, &mut cand, T0 + WEEK), None);
    assert_eq!(go(&mut e, &mut cred, &mut cand, T0 + WEEK), Some(ErrorCode::AlreadyVoted));
    assert_eq!(cand.vote_count, 1);
}

#[test]
fn activate_and_finalize_windows() {
    let mut e = draft();
    assert_eq!(finalize_election(&mut e, T0 + WEEK + 1).err(), Some(ErrorCode::ElectionNotActive));
    assert_eq!(activate_election(&mut e, T0 - 1).err(), Some(ErrorCode::ElectionNotStarted));
    assert!(activate_election(&mut e, T0).is_ok());
    assert!(e.is_active);
    assert_eq!(activate_election(&mut e, T0 + 1).err(), Some(ErrorCode::ElectionAlreadyActive));
    assert_eq!(finalize_election(&mut e, T0 + WEEK).err(), Some(ErrorCode::ElectionStillActive));
    assert!(finalize_election(&mut e, T0 + WEEK + 1).is_ok());
    assert!(!e.is_active);
}

#[test]
fn audit_projects_credential() {
    let mut e = draft();
    let c = credential(&mut e, key(5));
    let a = audit_verification(&c);
    assert_eq!(a.voter_nik_hash, c.voter_nik_hash);
    assert_eq!(a.biometric_hash, [7u8; 32]);
    assert_eq!(a.ai_confidence_score, 92);
    assert_eq!(a.verification_timestamp, T0 - 3600);
    assert!(!a.has_voted);
    assert!(a.is_verified);
}

#[test]
fn receipt_matches_only_own_credential() {
    let mut e = draft();
    let mut cand = candidate(&e);
    let mut mine = credential(&mut e, key(5));
    let other = verify_voter(
        &mut e, key(2), key(6), 1, "3171234567890002".to_string(), [0u8; 32], "p".to_string(),
        T0 - 10, 80, T0 - 5,
    )
    .unwrap();
    activate_election(&mut e, T0).unwrap();
    let b = cast_vote(&mut e, &mut mine, &mut cand, key(5), key(2), key(3), 1, [1u8; 32], T0 + 5)
        .unwrap();
    let ok = verify_ballot_receipt(key(5), &mine, &b);
    assert!(ok.is_valid);
    assert_eq!(ok.ballot_sequence, 0);
    assert_eq!(ok.timestamp, T0 + 5);
    assert_eq!(ok.verification_code, mine.verification_code);
    let bad = verify_ballot_receipt(key(6), &other, &b);
    assert!(!bad.is_valid);
    assert_eq!(bad.verification_code, other.verification_code);
    let wrong_voter = verify_ballot_receipt(key(6), &mine, &b);
    assert!(!wrong_voter.is_valid);
    let mut elsewhere = b;
    elsewhere.election = key(4);
    assert!(!verify_ballot_receipt(key(5), &mine, &elsewhere).is_valid);
}

#[test]
fn verification_code_depends_on_every_input() {
    let a = generate_verification_code(key(5), NIK, 100);
    assert_eq!(a, generate_verification_code(key(5), NIK, 100));
    assert_ne!(a, generate_verification_code(key(6), NIK, 100));
    assert_ne!(a, generate_verification_code(key(5), "3171234567890002", 100));
    assert_ne!(a, generate_verification_code(key(5), NIK, 101));
    assert_ne!(a, generate_verification_code(key(5), NIK, -100));
    assert_eq!(a.chars().count(), 16);
    assert!(a.chars().all(|c| c.is_ascii_alphanumeric()));
    assert!(!a.contains(NIK));
}

#[test]
fn ballot_receipt_extends_with_code() {
    let r = generate_ballot_receipt(key(5), "abc", 7);
    assert_eq!(r.chars().count(), 32);
    assert_ne!(r, generate_ballot_receipt(key(5), "abd", 7));
    assert_eq!(&r[..16], generate_verification_code(key(5), "abc", 7));
}

#[test]
fn truncation_keeps_prefix() {
    assert_eq!(truncated("abcdef", 3), "abc");
    assert_eq!(truncated("ab", 3), "ab");
    assert_eq!(truncated("", 0), "");
}

#[test]
fn little_endian_seeds() {
    assert_eq!(u64_le_bytes(0x0102030405060708), vec![8, 7, 6, 5, 4, 3, 2, 1]);
    assert_eq!(u64_le_bytes(0), vec![0; 8]);
    assert_eq!(u32_le_bytes(1), vec![1, 0, 0, 0]);
    assert_eq!(u32_le_bytes(u32::MAX), vec![255; 4]);
}

#[test]
fn key_equality_is_bytewise() {
    let mut b = [9u8; 32];
    assert!(Pubkey::new_from_array(b).equals(&key(9)));
    b[31] = 8;
    assert!(!Pubkey::new_from_array(b).equals(&key(9)));
}

#[test]
fn counter_steps() {
    let mut c = Idngenelectevotingsolana::initialize();
    assert_eq!(c.count, 0);
    c.increment();
    c.increment();
    c.decrement();
    assert_eq!(c.count, 1);
    c.set(254);
    c.increment();
    assert_eq!(c.count, 255);
}
