use vstd::prelude::*;
use vstd::string::{StrSliceExecFns, StringExecFns};
use vstd::utf8::encode_utf8;
use crate::keys::Pubkey;

verus! {

/// The SHA-256 digest that `solana_program::hash::hash` gives for `data`.
pub uninterp spec fn sha256_of(data: Seq<u8>) -> Seq<u8>;

/// The base58 text that `bs58::encode(..).into_string()` gives for `data`.
pub uninterp spec fn base58_of(data: Seq<u8>) -> Seq<char>;

/// The text that a solana `Pubkey` with these bytes displays as.
pub uninterp spec fn key_text_of(key: Seq<u8>) -> Seq<char>;

/// Relies on `solana_program::hash::hash`: the SHA-256 digest of `data`,
/// 32 bytes that depend on `data` alone.
#[verifier::external_body]
pub(crate) fn sha256_digest(data: &[u8]) -> (r: [u8; 32])
    ensures
        r@ == sha256_of(data@),
{
    solana_program::hash::hash(data).to_bytes()
}

/// Relies on `bs58::encode(..).into_string()`: the base58 text of `data`.
#[verifier::external_body]
fn base58(data: &[u8]) -> (r: String)
    ensures
        r@ == base58_of(data@),
{
    bs58::encode(data).into_string()
}

/// Relies on the `Display` impl of solana_program's `Pubkey`: the key's
/// text, which depends on its bytes alone.
#[verifier::external_body]
fn key_text(key: &Pubkey) -> (r: String)
    ensures
        r@ == key_text_of(key@),
{
    solana_program::pubkey::Pubkey::new_from_array(key.bytes).to_string()
}

pub open spec fn digit_char(d: nat) -> char {
    ((d + 48) as u8) as char
}

/// The decimal digits of `n`, most significant first, with no leading zero.
pub open spec fn digits_text(n: nat) -> Seq<char>
    decreases n,
{
    if n < 10 {
        seq![digit_char(n)]
    } else {
        digits_text(n / 10).push(digit_char(n % 10))
    }
}

/// The decimal text of `n`, with a leading '-' when negative.
pub open spec fn decimal_text(n: int) -> Seq<char> {
    if n < 0 {
        seq!['-'] + digits_text((-n) as nat)
    } else {
        digits_text(n as nat)
    }
}

/// Relies on the `Display` impl of `i64`: its decimal text.
#[verifier::external_body]
fn decimal(n: i64) -> (r: String)
    ensures
        r@ == decimal_text(n as int),
{
    n.to_string()
}

/// The first `n` characters of `s`, or all of `s` when it is shorter.
pub open spec fn truncate(s: Seq<char>, n: nat) -> Seq<char> {
    if s.len() >= n {
        s.subrange(0, n as int)
    } else {
        s
    }
}

pub fn truncated(s: &str, n: usize) -> (r: String)
    ensures
        r@ == truncate(s@, n as nat),
{
    if s.unicode_len() >= n {
        String::from_str(s.substring_char(0, n))
    } else {
        String::from_str(s)
    }
}

/// Length of a voter's verification code.
pub const VERIFICATION_CODE_LEN: usize = 16;

/// Length of a ballot receipt.
pub const BALLOT_RECEIPT_LEN: usize = 32;

/// The text hashed for a commitment: the actor's key text, then the secret,
/// then the timestamp in decimal.
pub open spec fn commitment_input(actor: Seq<u8>, secret: Seq<char>, timestamp: i64) -> Seq<char> {
    key_text_of(actor) + secret + decimal_text(timestamp as int)
}

/// A commitment to (actor, secret, timestamp): the base58 text of the
/// SHA-256 digest of the UTF-8 bytes of `commitment_input`, cut to `len`.
pub open spec fn commitment(actor: Seq<u8>, secret: Seq<char>, timestamp: i64, len: nat) -> Seq<
    char,
> {
    truncate(base58_of(sha256_of(encode_utf8(commitment_input(actor, secret, timestamp)))), len)
}

pub open spec fn verification_code_of(voter: Seq<u8>, nik: Seq<char>, timestamp: i64) -> Seq<
    char,
> {
    commitment(voter, nik, timestamp, VERIFICATION_CODE_LEN as nat)
}

pub open spec fn ballot_receipt_of(voter: Seq<u8>, code: Seq<char>, timestamp: i64) -> Seq<char> {
    commitment(voter, code, timestamp, BALLOT_RECEIPT_LEN as nat)
}

/// The encoded commitment for `actor`, `secret` and `timestamp`, cut to
/// `len` characters.
fn commit(actor: &Pubkey, secret: &str, timestamp: i64, len: usize) -> (r: String)
    ensures
        r@ == commitment(actor@, secret@, timestamp, len as nat),
{
    let mut data = key_text(actor);
    data.append(secret);
    let t = decimal(timestamp);
    data.append(t.as_str());
    let digest = sha256_digest(data.as_str().as_bytes());
    let encoded = base58(digest.as_slice());
    truncated(encoded.as_str(), len)
}

/// The code a voter uses to confirm their registration, derived from the
/// voter's key, their national identifier and the verification time.
pub fn generate_verification_code(voter_pubkey: Pubkey, voter_nik: &str, timestamp: i64) -> (r:
    String)
    ensures
        r@ == verification_code_of(voter_pubkey@, voter_nik@, timestamp),
{
    commit(&voter_pubkey, voter_nik, timestamp, VERIFICATION_CODE_LEN)
}

/// The receipt a voter uses to confirm their ballot was recorded, derived
/// from the voter's key, their verification code and the vote time.
pub fn generate_ballot_receipt(voter_pubkey: Pubkey, verification_code: &str, timestamp: i64) -> (r:
    String)
    ensures
        r@ == ballot_receipt_of(voter_pubkey@, verification_code@, timestamp),
{
    commit(&voter_pubkey, verification_code, timestamp, BALLOT_RECEIPT_LEN)
}

} // verus!
