use vstd::prelude::*;
use vstd::string::{StrSliceExecFns, StringSliceAdditionalSpecFns};

verus! {

/// A 32-byte account identity: a signer's public key or a derived account
/// address.
#[derive(Clone, Copy, Debug)]
pub struct Pubkey {
    pub bytes: [u8; 32],
}

impl View for Pubkey {
    type V = Seq<u8>;

    open spec fn view(&self) -> Seq<u8> {
        self.bytes@
    }
}

impl Pubkey {
    pub fn new_from_array(bytes: [u8; 32]) -> (r: Pubkey)
        ensures
            r@ == bytes@,
    {
        Pubkey { bytes }
    }

    pub fn to_bytes(&self) -> (r: [u8; 32])
        ensures
            r@ == self@,
    {
        self.bytes
    }

    pub fn to_vec(&self) -> (r: Vec<u8>)
        ensures
            r@ == self@,
    {
        let mut r: Vec<u8> = Vec::new();
        let mut i: usize = 0;
        while i < 32
            invariant
                i <= 32,
                self@.len() == 32,
                r@ == self@.subrange(0, i as int),
            decreases 32 - i,
        {
            r.push(self.bytes[i]);
            i = i + 1;
            assert(r@ =~= self@.subrange(0, i as int));
        }
        assert(r@ =~= self@);
        r
    }

    /// Byte-wise equality of two keys.
    pub fn equals(&self, other: &Pubkey) -> (r: bool)
        ensures
            r == (self@ == other@),
    {
        let mut i: usize = 0;
        while i < 32
            invariant
                i <= 32,
                self@.len() == 32,
                other@.len() == 32,
                forall|j: int| 0 <= j < i ==> self@[j] == other@[j],
            decreases 32 - i,
        {
            if self.bytes[i] != other.bytes[i] {
                return false;
            }
            i = i + 1;
        }
        assert(self@ =~= other@);
        true
    }
}

} // verus!

verus! {

/// Little-endian bytes of `n`, `k` bytes long.
pub open spec fn le_bytes(n: nat, k: nat) -> Seq<u8>
    decreases k,
{
    if k == 0 {
        Seq::empty()
    } else {
        seq![(n % 256) as u8] + le_bytes(n / 256, (k - 1) as nat)
    }
}

/// The eight little-endian bytes of a `u64`.
pub fn u64_le_bytes(n: u64) -> (r: Vec<u8>)
    ensures
        r@ == le_bytes(n as nat, 8),
{
    let mut r: Vec<u8> = Vec::new();
    let mut x: u64 = n;
    let mut i: usize = 0;
    while i < 8
        invariant
            i <= 8,
            r@ + le_bytes(x as nat, (8 - i) as nat) == le_bytes(n as nat, 8),
        decreases 8 - i,
    {
        let ghost before = r@;
        r.push((x % 256) as u8);
        assert(before + le_bytes(x as nat, (8 - i) as nat) == r@ + le_bytes(
            (x / 256) as nat,
            (8 - i - 1) as nat,
        )) by {
            assert(le_bytes(x as nat, (8 - i) as nat) == seq![(x % 256) as u8] + le_bytes(
                (x as nat) / 256,
                (8 - i - 1) as nat,
            ));
            assert(before + (seq![(x % 256) as u8] + le_bytes((x as nat) / 256, (8 - i - 1) as nat))
                =~= r@ + le_bytes((x / 256) as nat, (8 - i - 1) as nat));
        }
        x = x / 256;
        i = i + 1;
    }
    assert(le_bytes(x as nat, 0) =~= Seq::<u8>::empty());
    assert(r@ + Seq::<u8>::empty() =~= r@);
    r
}

/// The four little-endian bytes of a `u32`.
pub fn u32_le_bytes(n: u32) -> (r: Vec<u8>)
    ensures
        r@ == le_bytes(n as nat, 4),
{
    let mut r: Vec<u8> = Vec::new();
    let mut x: u32 = n;
    let mut i: usize = 0;
    while i < 4
        invariant
            i <= 4,
            r@ + le_bytes(x as nat, (4 - i) as nat) == le_bytes(n as nat, 4),
        decreases 4 - i,
    {
        let ghost before = r@;
        r.push((x % 256) as u8);
        assert(before + le_bytes(x as nat, (4 - i) as nat) == r@ + le_bytes(
            (x / 256) as nat,
            (4 - i - 1) as nat,
        )) by {
            assert(le_bytes(x as nat, (4 - i) as nat) == seq![(x % 256) as u8] + le_bytes(
                (x as nat) / 256,
                (4 - i - 1) as nat,
            ));
            assert(before + (seq![(x % 256) as u8] + le_bytes((x as nat) / 256, (4 - i - 1) as nat))
                =~= r@ + le_bytes((x / 256) as nat, (4 - i - 1) as nat));
        }
        x = x / 256;
        i = i + 1;
    }
    assert(le_bytes(x as nat, 0) =~= Seq::<u8>::empty());
    assert(r@ + Seq::<u8>::empty() =~= r@);
    r
}

/// The kinds of account that the program derives addresses for.
#[derive(PartialEq, Eq, Structural, Clone, Copy, Debug)]
pub enum AccountKind {
    Election,
    Candidate,
    VoterCredential,
    Ballot,
    VotingTokenMint,
}

/// The leading seed of each kind: the ASCII bytes of "election",
/// "candidate", "voter_credential", "ballot" and "voting_token_mint".
pub open spec fn kind_tag(kind: AccountKind) -> Seq<u8> {
    match kind {
        AccountKind::Election => seq![101u8, 108, 101, 99, 116, 105, 111, 110],
        AccountKind::Candidate => seq![99u8, 97, 110, 100, 105, 100, 97, 116, 101],
        AccountKind::VoterCredential => seq![
            118u8, 111, 116, 101, 114, 95, 99, 114, 101, 100, 101, 110, 116, 105, 97, 108,
        ],
        AccountKind::Ballot => seq![98u8, 97, 108, 108, 111, 116],
        AccountKind::VotingTokenMint => seq![
            118u8, 111, 116, 105, 110, 103, 95, 116, 111, 107, 101, 110, 95, 109, 105, 110, 116,
        ],
    }
}

pub fn account_kind_tag(kind: AccountKind) -> (r: Vec<u8>)
    ensures
        r@ == kind_tag(kind),
{
    let r: Vec<u8> = match kind {
        AccountKind::Election => vec![101u8, 108, 101, 99, 116, 105, 111, 110],
        AccountKind::Candidate => vec![99u8, 97, 110, 100, 105, 100, 97, 116, 101],
        AccountKind::VoterCredential => vec![
            118u8, 111, 116, 101, 114, 95, 99, 114, 101, 100, 101, 110, 116, 105, 97, 108,
        ],
        AccountKind::Ballot => vec![98u8, 97, 108, 108, 111, 116],
        AccountKind::VotingTokenMint => vec![
            118u8, 111, 116, 105, 110, 103, 95, 116, 111, 107, 101, 110, 95, 109, 105, 110, 116,
        ],
    };
    assert(r@ =~= kind_tag(kind));
    r
}

} // verus!

verus! {

/// What `Pubkey::try_find_program_address` gives for these seeds under this
/// program: the address and its bump seed, or nothing when no bump yields one.
pub uninterp spec fn program_address_of(seeds: Seq<Seq<u8>>, program_id: Seq<u8>) -> Option<
    (Seq<u8>, u8),
>;

pub open spec fn address_view(r: Option<(Pubkey, u8)>) -> Option<(Seq<u8>, u8)> {
    match r {
        Some((k, bump)) => Some((k@, bump)),
        None => None,
    }
}

/// Relies on solana_program's `Pubkey::try_find_program_address`: the
/// derived address and bump seed, a function of the seeds and program id.
#[verifier::external_body]
fn try_find_program_address(seeds: &Vec<Vec<u8>>, program_id: &Pubkey) -> (r: Option<
    (Pubkey, u8),
>)
    ensures
        address_view(r) == program_address_of(seeds.deep_view(), program_id@),
{
    let refs: Vec<&[u8]> = seeds.iter().map(|s| s.as_slice()).collect();
    let program = solana_program::pubkey::Pubkey::new_from_array(program_id.bytes);
    match solana_program::pubkey::Pubkey::try_find_program_address(&refs, &program) {
        Some((k, bump)) => Some((Pubkey { bytes: k.to_bytes() }, bump)),
        None => None,
    }
}

pub open spec fn election_seeds(name: Seq<u8>) -> Seq<Seq<u8>> {
    seq![kind_tag(AccountKind::Election), name]
}

pub open spec fn candidate_seeds(election: Seq<u8>, candidate_id: u32) -> Seq<Seq<u8>> {
    seq![kind_tag(AccountKind::Candidate), election, le_bytes(candidate_id as nat, 4)]
}

pub open spec fn credential_seeds(election: Seq<u8>, voter: Seq<u8>) -> Seq<Seq<u8>> {
    seq![kind_tag(AccountKind::VoterCredential), election, voter]
}

pub open spec fn ballot_seeds(election: Seq<u8>, sequence: u64) -> Seq<Seq<u8>> {
    seq![kind_tag(AccountKind::Ballot), election, le_bytes(sequence as nat, 8)]
}

pub open spec fn mint_seeds(election: Seq<u8>) -> Seq<Seq<u8>> {
    seq![kind_tag(AccountKind::VotingTokenMint), election]
}

fn seeds2(a: Vec<u8>, b: Vec<u8>) -> (r: Vec<Vec<u8>>)
    ensures
        r.deep_view() == seq![a@, b@],
{
    let ghost (va, vb) = (a@, b@);
    assert(a.deep_view() =~= va);
    assert(b.deep_view() =~= vb);
    let r = vec![a, b];
    assert(r.deep_view() =~= seq![va, vb]);
    r
}

fn seeds3(a: Vec<u8>, b: Vec<u8>, c: Vec<u8>) -> (r: Vec<Vec<u8>>)
    ensures
        r.deep_view() == seq![a@, b@, c@],
{
    let ghost (va, vb, vc) = (a@, b@, c@);
    assert(a.deep_view() =~= va);
    assert(b.deep_view() =~= vb);
    assert(c.deep_view() =~= vc);
    let r = vec![a, b, c];
    assert(r.deep_view() =~= seq![va, vb, vc]);
    r
}

/// The address of the election named `name`, from ("election", name).
pub fn election_address(program_id: &Pubkey, name: &str) -> (r: Option<(Pubkey, u8)>)
    ensures
        address_view(r) == program_address_of(election_seeds(name.spec_bytes()), program_id@),
{
    let seeds = seeds2(account_kind_tag(AccountKind::Election), name.as_bytes_vec());
    try_find_program_address(&seeds, program_id)
}

/// The address of a candidate, from ("candidate", election, id as 4 LE bytes).
pub fn candidate_address(program_id: &Pubkey, election: &Pubkey, candidate_id: u32) -> (r:
    Option<(Pubkey, u8)>)
    ensures
        address_view(r) == program_address_of(candidate_seeds(election@, candidate_id), program_id@),
{
    let seeds = seeds3(
        account_kind_tag(AccountKind::Candidate),
        election.to_vec(),
        u32_le_bytes(candidate_id),
    );
    try_find_program_address(&seeds, program_id)
}

/// The address of a voter's credential, from ("voter_credential", election, voter).
pub fn credential_address(program_id: &Pubkey, election: &Pubkey, voter: &Pubkey) -> (r: Option<
    (Pubkey, u8),
>)
    ensures
        address_view(r) == program_address_of(credential_seeds(election@, voter@), program_id@),
{
    let seeds = seeds3(
        account_kind_tag(AccountKind::VoterCredential),
        election.to_vec(),
        voter.to_vec(),
    );
    try_find_program_address(&seeds, program_id)
}

/// The address of a ballot, from ("ballot", election, sequence as 8 LE bytes).
pub fn ballot_address(program_id: &Pubkey, election: &Pubkey, sequence: u64) -> (r: Option<
    (Pubkey, u8),
>)
    ensures
        address_view(r) == program_address_of(ballot_seeds(election@, sequence), program_id@),
{
    let seeds = seeds3(
        account_kind_tag(AccountKind::Ballot),
        election.to_vec(),
        u64_le_bytes(sequence),
    );
    try_find_program_address(&seeds, program_id)
}

/// The address of an election's voting-rights mint, from ("voting_token_mint", election).
pub fn mint_address(program_id: &Pubkey, election: &Pubkey) -> (r: Option<(Pubkey, u8)>)
    ensures
        address_view(r) == program_address_of(mint_seeds(election@), program_id@),
{
    let seeds = seeds2(account_kind_tag(AccountKind::VotingTokenMint), election.to_vec());
    try_find_program_address(&seeds, program_id)
}

} // verus!
