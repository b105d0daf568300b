use vstd::prelude::*;
use vstd::utf8::encode_utf8;
use crate::errors::ErrorCode;
use crate::keys::{
    ballot_address, ballot_seeds, candidate_address, candidate_seeds, credential_address,
    credential_seeds, election_address, election_seeds, mint_address, mint_seeds,
    program_address_of, Pubkey,
};
use crate::lifecycle::{
    activate_election, activate_election_check, activate_election_error, finalize_election,
    finalize_election_check, finalize_election_error,
    initialize_election, initialize_election_error,
};
use crate::registration::{
    issued_credential, register_candidate, register_candidate_error, verify_voter, verify_voter_check,
    verify_voter_error,
};
use crate::audit::{audit_verification, receipt_matches, verify_ballot_receipt};
use crate::digest::ballot_receipt_of;
use crate::state::{AuditData, Ballot, Candidate, Election, ReceiptVerification, VoterCredential};
use crate::voting::{cast_vote, cast_vote_check, cast_vote_error};

verus! {

/// Failures of a transaction against the store, beside the program's own.
#[derive(PartialEq, Eq, Structural, Clone, Copy, Debug)]
pub enum LedgerError {
    /// The election program rejected the operation.
    Program(ErrorCode),
    /// An account of that kind already exists at the derived address.
    AccountAlreadyInUse,
    /// No account of that kind exists at the derived address.
    AccountNotFound,
    /// The seeds yield no program address.
    AddressDerivationFailed,
    /// The signer may not perform the operation.
    Unauthorized,
    /// The voter holds no voting-rights unit to burn.
    InsufficientFunds,
    /// Minting would overflow the voter's holding.
    TokenOverflow,
}

/// The address derived for `seeds` under `program_id`, if any.
pub open spec fn derived(seeds: Seq<Seq<u8>>, program_id: Seq<u8>) -> Option<Seq<u8>> {
    match program_address_of(seeds, program_id) {
        Some((a, _)) => Some(a),
        None => None,
    }
}

pub struct CandidateAccount {
    pub address: Pubkey,
    pub data: Candidate,
}

pub struct CredentialAccount {
    pub address: Pubkey,
    pub data: VoterCredential,
}

pub struct BallotAccount {
    pub address: Pubkey,
    pub data: Ballot,
}

/// The voting-rights units that one voter holds in one election.
pub struct TokenHolding {
    pub owner: Pubkey,
    pub amount: u64,
}

/// An election and the accounts it owns: candidates, credentials, ballots
/// and the holdings of its voting-rights mint.
pub struct ElectionAccount {
    pub address: Pubkey,
    pub mint: Pubkey,
    pub data: Election,
    pub candidates: Vec<CandidateAccount>,
    pub credentials: Vec<CredentialAccount>,
    pub ballots: Vec<BallotAccount>,
    pub holdings: Vec<TokenHolding>,
}

impl ElectionAccount {
    pub open spec fn wf(&self, program_id: Seq<u8>) -> bool {
        &&& self.data.wf()
        &&& derived(election_seeds(encode_utf8(self.data.election_name@)), program_id) == Some(
            self.address@,
        )
        &&& derived(mint_seeds(self.address@), program_id) == Some(self.mint@)
        &&& self.ballots@.len() == self.data.total_votes_cast
        &&& forall|i: int|
            0 <= i < self.ballots@.len() ==> (#[trigger] self.ballots@[i]).data.ballot_sequence
                == i
        &&& forall|i: int|
            0 <= i < self.ballots@.len() ==> {
                &&& derived(
                    ballot_seeds(self.address@, (#[trigger] self.ballots@[i]).data.ballot_sequence),
                    program_id,
                ) == Some(self.ballots@[i].address@)
                &&& self.ballots@[i].data.election@ == self.address@
            }
        &&& forall|i: int, j: int|
            0 <= i < self.ballots@.len() && 0 <= j < self.ballots@.len() && i != j
                ==> (#[trigger] self.ballots@[i]).address@ != (#[trigger] self.ballots@[j]).address@
        &&& forall|i: int|
            0 <= i < self.candidates@.len() ==> derived(
                candidate_seeds(self.address@, (#[trigger] self.candidates@[i]).data.candidate_id),
                program_id,
            ) == Some(self.candidates@[i].address@)
        &&& forall|i: int, j: int|
            0 <= i < self.candidates@.len() && 0 <= j < self.candidates@.len() && i != j
                ==> (#[trigger] self.candidates@[i]).address@ != (#[trigger] self.candidates@[j]).address@
        &&& forall|i: int|
            0 <= i < self.credentials@.len() ==> (#[trigger] self.credentials@[i]).data.election@
                == self.address@
        &&& forall|i: int|
            0 <= i < self.credentials@.len() ==> derived(
                credential_seeds(self.address@, (#[trigger] self.credentials@[i]).data.voter_authority@),
                program_id,
            ) == Some(self.credentials@[i].address@)
        &&& forall|i: int, j: int|
            0 <= i < self.credentials@.len() && 0 <= j < self.credentials@.len() && i != j
                ==> (#[trigger] self.credentials@[i]).address@ != (#[trigger] self.credentials@[j]).address@
        &&& forall|i: int, j: int|
            0 <= i < self.holdings@.len() && 0 <= j < self.holdings@.len() && i != j
                ==> (#[trigger] self.holdings@[i]).owner@ != (#[trigger] self.holdings@[j]).owner@
    }

    /// A candidate account of this election sits at `address`.
    pub open spec fn candidate_at(&self, address: Seq<u8>) -> bool {
        exists|i: int|
            0 <= i < self.candidates@.len() && (#[trigger] self.candidates@[i]).address@ == address
    }

    /// A ballot account of this election sits at `address`.
    pub open spec fn ballot_at(&self, address: Seq<u8>) -> bool {
        exists|i: int| 0 <= i < self.ballots@.len() && (#[trigger] self.ballots@[i]).address@ == address
    }

    /// A credential account of this election sits at `address`.
    pub open spec fn credential_at(&self, address: Seq<u8>) -> bool {
        exists|i: int|
            0 <= i < self.credentials@.len() && (#[trigger] self.credentials@[i]).address@ == address
    }

    /// `voter` holds a credential of this election.
    pub open spec fn has_credential_of(&self, voter: Seq<u8>) -> bool {
        exists|i: int|
            0 <= i < self.credentials@.len() && (#[trigger] self.credentials@[i]).data.voter_authority@
                == voter
    }
}

/// The store: every election with the accounts it owns, under one program.
pub struct Ledger {
    pub program_id: Pubkey,
    pub elections: Vec<ElectionAccount>,
}

impl Ledger {
    pub open spec fn wf(&self) -> bool {
        &&& forall|k: int|
            0 <= k < self.elections@.len() ==> (#[trigger] self.elections@[k]).wf(self.program_id@)
        &&& forall|k: int, l: int|
            0 <= k < self.elections@.len() && 0 <= l < self.elections@.len() && k != l
                ==> (#[trigger] self.elections@[k]).address@ != (#[trigger] self.elections@[l]).address@
    }

    /// The election account at index `k` has address `key`.
    pub open spec fn election_at(&self, k: int, key: Seq<u8>) -> bool {
        0 <= k < self.elections@.len() && self.elections@[k].address@ == key
    }

    pub open spec fn has_election(&self, key: Seq<u8>) -> bool {
        exists|k: int| self.election_at(k, key)
    }

    /// An empty store for the program `program_id`.
    pub fn new(program_id: Pubkey) -> (r: Ledger)
        ensures
            r.wf(),
            r.program_id == program_id,
            r.elections@.len() == 0,
    {
        Ledger { program_id, elections: Vec::new() }
    }

    /// The index of the election at `key`, if there is one.
    pub fn find_election(&self, key: &Pubkey) -> (r: Option<usize>)
        ensures
            r matches Some(k) ==> self.election_at(k as int, key@),
            r is None ==> !self.has_election(key@),
    {
        let mut k: usize = 0;
        while k < self.elections.len()
            invariant
                k <= self.elections@.len(),
                forall|l: int| 0 <= l < k ==> self.elections@[l].address@ != key@,
            decreases self.elections@.len() - k,
        {
            if self.elections[k].address.equals(key) {
                return Some(k);
            }
            k = k + 1;
        }
        None
    }
}


impl ElectionAccount {
    /// The index of the candidate account at `address`, if any.
    pub fn find_candidate(&self, address: &Pubkey) -> (r: Option<usize>)
        ensures
            r matches Some(i) ==> i < self.candidates@.len() && self.candidates@[i as int].address@
                == address@,
            r is None ==> forall|i: int|
                0 <= i < self.candidates@.len() ==> self.candidates@[i].address@ != address@,
    {
        let mut i: usize = 0;
        while i < self.candidates.len()
            invariant
                i <= self.candidates@.len(),
                forall|l: int| 0 <= l < i ==> self.candidates@[l].address@ != address@,
            decreases self.candidates@.len() - i,
        {
            if self.candidates[i].address.equals(address) {
                return Some(i);
            }
            i = i + 1;
        }
        None
    }

    /// The index of the credential account at `address`, if any.
    pub fn find_credential(&self, address: &Pubkey) -> (r: Option<usize>)
        ensures
            r matches Some(i) ==> i < self.credentials@.len() && self.credentials@[i as int].address@
                == address@,
            r is None ==> forall|i: int|
                0 <= i < self.credentials@.len() ==> self.credentials@[i].address@ != address@,
    {
        let mut i: usize = 0;
        while i < self.credentials.len()
            invariant
                i <= self.credentials@.len(),
                forall|l: int| 0 <= l < i ==> self.credentials@[l].address@ != address@,
            decreases self.credentials@.len() - i,
        {
            if self.credentials[i].address.equals(address) {
                return Some(i);
            }
            i = i + 1;
        }
        None
    }

    /// The index of the ballot account at `address`, if any.
    pub fn find_ballot(&self, address: &Pubkey) -> (r: Option<usize>)
        ensures
            r matches Some(i) ==> i < self.ballots@.len() && self.ballots@[i as int].address@
                == address@,
            r is None ==> forall|i: int|
                0 <= i < self.ballots@.len() ==> self.ballots@[i].address@ != address@,
    {
        let mut i: usize = 0;
        while i < self.ballots.len()
            invariant
                i <= self.ballots@.len(),
                forall|l: int| 0 <= l < i ==> self.ballots@[l].address@ != address@,
            decreases self.ballots@.len() - i,
        {
            if self.ballots[i].address.equals(address) {
                return Some(i);
            }
            i = i + 1;
        }
        None
    }

    /// The index of `owner`'s holding, if any.
    pub fn find_holding(&self, owner: &Pubkey) -> (r: Option<usize>)
        ensures
            r matches Some(i) ==> i < self.holdings@.len() && self.holdings@[i as int].owner@
                == owner@,
            r is None ==> forall|i: int|
                0 <= i < self.holdings@.len() ==> self.holdings@[i].owner@ != owner@,
    {
        let mut i: usize = 0;
        while i < self.holdings.len()
            invariant
                i <= self.holdings@.len(),
                forall|l: int| 0 <= l < i ==> self.holdings@[l].owner@ != owner@,
            decreases self.holdings@.len() - i,
        {
            if self.holdings[i].owner.equals(owner) {
                return Some(i);
            }
            i = i + 1;
        }
        None
    }
}

/// Whether `key` is one of `commissioners`.
pub fn is_commissioner(commissioners: &Vec<Pubkey>, key: &Pubkey) -> (r: bool)
    ensures
        r == exists|i: int| 0 <= i < commissioners@.len() && (#[trigger] commissioners@[i])@ == key@,
{
    let mut i: usize = 0;
    while i < commissioners.len()
        invariant
            i <= commissioners@.len(),
            forall|l: int| 0 <= l < i ==> (#[trigger] commissioners@[l])@ != key@,
        decreases commissioners@.len() - i,
    {
        if commissioners[i].equals(key) {
            return true;
        }
        i = i + 1;
    }
    false
}


impl Ledger {
    /// Creates the election named `election_name` at the address derived
    /// from its name, with its voting-rights mint. The store changes only on
    /// success.
    pub fn create_election(
        &mut self,
        authority: Pubkey,
        election_name: String,
        start_time: i64,
        end_time: i64,
        commissioners: Vec<Pubkey>,
        required_signatures: u8,
    ) -> (r: Result<Pubkey, LedgerError>)
        requires
            old(self).wf(),
        ensures
            final(self).wf(),
            final(self).program_id == old(self).program_id,
            r is Err ==> *final(self) == *old(self),
            derived(election_seeds(encode_utf8(election_name@)), old(self).program_id@) is None
                ==> r == Err::<Pubkey, LedgerError>(LedgerError::AddressDerivationFailed),
            derived(election_seeds(encode_utf8(election_name@)), old(self).program_id@) matches Some(
                a,
            ) ==> {
                &&& old(self).has_election(a) ==> r == Err::<Pubkey, LedgerError>(
                    LedgerError::AccountAlreadyInUse,
                )
                &&& !old(self).has_election(a) && derived(mint_seeds(a), old(self).program_id@)
                    is Some ==> match initialize_election_error(
                    encode_utf8(election_name@),
                    start_time,
                    end_time,
                    commissioners@.len(),
                    required_signatures,
                ) {
                    Some(e) => r == Err::<Pubkey, LedgerError>(LedgerError::Program(e)),
                    None => r matches Ok(key) && key@ == a,
                }
            },
            r matches Ok(key) ==> {
                &&& final(self).elections@.len() == old(self).elections@.len() + 1
                &&& final(self).elections@.drop_last() == old(self).elections@
                &&& final(self).elections@.last().address@ == key@
                &&& final(self).elections@.last().data.authority@ == authority@
                &&& final(self).elections@.last().data.election_name@ == election_name@
                &&& final(self).elections@.last().data.start_time == start_time
                &&& final(self).elections@.last().data.end_time == end_time
                &&& !final(self).elections@.last().data.is_active
                &&& final(self).elections@.last().data.total_registered_voters == 0
                &&& final(self).elections@.last().data.total_votes_cast == 0
                &&& final(self).elections@.last().data.commissioners@ == commissioners@
                &&& final(self).elections@.last().data.required_signatures == required_signatures
                &&& !final(self).elections@.last().data.is_finalized
                &&& final(self).elections@.last().candidates@.len() == 0
                &&& final(self).elections@.last().credentials@.len() == 0
                &&& final(self).elections@.last().ballots@.len() == 0
                &&& final(self).elections@.last().holdings@.len() == 0
            },
    {
        let (address, bump) = match election_address(&self.program_id, election_name.as_str()) {
            Some(p) => p,
            None => {
                return Err(LedgerError::AddressDerivationFailed);
            },
        };
        if self.find_election(&address).is_some() {
            return Err(LedgerError::AccountAlreadyInUse);
        }
        let mint = match mint_address(&self.program_id, &address) {
            Some(p) => p.0,
            None => {
                return Err(LedgerError::AddressDerivationFailed);
            },
        };
        let data = match initialize_election(
            authority,
            bump,
            election_name,
            start_time,
            end_time,
            commissioners,
            required_signatures,
        ) {
            Ok(d) => d,
            Err(e) => {
                return Err(LedgerError::Program(e));
            },
        };
        let account = ElectionAccount {
            address,
            mint,
            data,
            candidates: Vec::new(),
            credentials: Vec::new(),
            ballots: Vec::new(),
            holdings: Vec::new(),
        };
        let ghost before = self.elections@;
        self.elections.push(account);
        assert(self.elections@.drop_last() =~= before);
        assert forall|k: int, l: int|
            0 <= k < self.elections@.len() && 0 <= l < self.elections@.len() && k != l
                implies (#[trigger] self.elections@[k]).address@ != (
            #[trigger] self.elections@[l]).address@ by {
            if k < before.len() && l < before.len() {
                assert(before[k] == self.elections@[k]);
            } else if k < before.len() {
                assert(self.election_at(k, before[k].address@));
                assert(old(self).election_at(k, before[k].address@));
            } else {
                assert(old(self).election_at(l, before[l].address@));
            }
        }
        Ok(address)
    }

    /// Registers a candidate of the election at `election_key`, signed by
    /// the election's authority, at the address derived from the candidate
    /// id. The store changes only on success.
    pub fn register_candidate(
        &mut self,
        authority: Pubkey,
        election_key: Pubkey,
        candidate_name: String,
        candidate_id: u32,
    ) -> (r: Result<Pubkey, LedgerError>)
        requires
            old(self).wf(),
        ensures
            final(self).wf(),
            final(self).program_id == old(self).program_id,
            r is Err ==> *final(self) == *old(self),
            !old(self).has_election(election_key@) ==> r == Err::<Pubkey, LedgerError>(
                LedgerError::AccountNotFound,
            ),
            forall|k: int|
                old(self).election_at(k, election_key@) ==> {
                    let acct = old(self).elections@[k];
                    &&& acct.data.authority@ != authority@ ==> r == Err::<Pubkey, LedgerError>(
                        LedgerError::Unauthorized,
                    )
                    &&& acct.data.authority@ == authority@ && derived(
                        candidate_seeds(election_key@, candidate_id),
                        old(self).program_id@,
                    ) is None ==> r == Err::<Pubkey, LedgerError>(
                        LedgerError::AddressDerivationFailed,
                    )
                    &&& forall|a: Seq<u8>|
                        acct.data.authority@ == authority@ && derived(
                            candidate_seeds(election_key@, candidate_id),
                            old(self).program_id@,
                        ) == Some(a) ==> {
                            &&& #[trigger] acct.candidate_at(a) ==> r == Err::<Pubkey, LedgerError>(
                                LedgerError::AccountAlreadyInUse,
                            )
                            &&& !acct.candidate_at(a) ==> match register_candidate_error(
                                acct.data,
                                encode_utf8(candidate_name@),
                            ) {
                                Some(e) => r == Err::<Pubkey, LedgerError>(LedgerError::Program(e)),
                                None => r matches Ok(key) && key@ == a,
                            }
                        }
                    &&& r matches Ok(key) ==> {
                        &&& derived(candidate_seeds(election_key@, candidate_id), old(self).program_id@)
                            == Some(key@)
                        &&& register_candidate_error(acct.data, encode_utf8(candidate_name@)) is None
                        &&& final(self).elections@ == old(self).elections@.update(
                            k,
                            ElectionAccount {
                                candidates: final(self).elections@[k].candidates,
                                ..acct
                            },
                        )
                        &&& final(self).elections@[k].candidates@.drop_last() == acct.candidates@
                        &&& final(self).elections@[k].candidates@.last().address@ == key@
                        &&& final(self).elections@[k].candidates@.last().data.candidate_id
                            == candidate_id
                        &&& final(self).elections@[k].candidates@.last().data.candidate_name@
                            == candidate_name@
                        &&& final(self).elections@[k].candidates@.last().data.vote_count == 0
                    }
                    &&& r matches Err(LedgerError::Program(e)) ==> register_candidate_error(
                        acct.data,
                        encode_utf8(candidate_name@),
                    ) == Some(e)
                },
    {
        let k = match self.find_election(&election_key) {
            Some(k) => k,
            None => {
                return Err(LedgerError::AccountNotFound);
            },
        };
        if !self.elections[k].data.authority.equals(&authority) {
            return Err(LedgerError::Unauthorized);
        }
        let (address, bump) = match candidate_address(&self.program_id, &election_key, candidate_id) {
            Some(p) => p,
            None => {
                return Err(LedgerError::AddressDerivationFailed);
            },
        };
        if self.elections[k].find_candidate(&address).is_some() {
            return Err(LedgerError::AccountAlreadyInUse);
        }
        let candidate = match register_candidate(
            &self.elections[k].data,
            election_key,
            bump,
            candidate_name,
            candidate_id,
        ) {
            Ok(c) => c,
            Err(e) => {
                return Err(LedgerError::Program(e));
            },
        };
        let ghost before = self.elections@;
        self.elections[k].candidates.push(CandidateAccount { address, data: candidate });
        assert(self.elections@[k as int].candidates@.drop_last() =~= before[k as int].candidates@);
        assert(self.elections@ =~= before.update(
            k as int,
            ElectionAccount { candidates: self.elections@[k as int].candidates, ..before[k as int] },
        ));
        assert forall|k2: int, l: int|
            0 <= k2 < self.elections@.len() && 0 <= l < self.elections@.len() && k2 != l
                implies (#[trigger] self.elections@[k2]).address@ != (
            #[trigger] self.elections@[l]).address@ by {
            assert(before[k2].address == self.elections@[k2].address);
            assert(before[l].address == self.elections@[l].address);
        }
        assert forall|k2: int| 0 <= k2 < self.elections@.len() implies (
        #[trigger] self.elections@[k2]).wf(self.program_id@) by {
            assert(before[k2].wf(self.program_id@));
        }
        Ok(address)
    }
}


impl Ledger {
    /// Verifies `voter` for the election at `election_key`: creates their
    /// credential at the address derived from (election, voter) and mints
    /// them one voting-rights unit. A voter who already holds a credential
    /// of the election is refused because that address is taken. The store
    /// changes only on success.
    pub fn verify_voter(
        &mut self,
        voter: Pubkey,
        election_key: Pubkey,
        voter_nik: String,
        biometric_hash: [u8; 32],
        photo_ipfs_hash: String,
        verification_timestamp: i64,
        ai_confidence_score: u8,
        now: i64,
    ) -> (r: Result<Pubkey, LedgerError>)
        requires
            old(self).wf(),
        ensures
            final(self).wf(),
            final(self).program_id == old(self).program_id,
            r is Err ==> *final(self) == *old(self),
            !old(self).has_election(election_key@) ==> r == Err::<Pubkey, LedgerError>(
                LedgerError::AccountNotFound,
            ),
            forall|k: int|
                old(self).election_at(k, election_key@) ==> {
                    let acct = old(self).elections@[k];
                    let check = verify_voter_error(
                        acct.data,
                        voter_nik@,
                        encode_utf8(photo_ipfs_hash@),
                        ai_confidence_score,
                        now,
                    );
                    &&& acct.has_credential_of(voter@) ==> r == Err::<Pubkey, LedgerError>(
                        LedgerError::AccountAlreadyInUse,
                    )
                    &&& r matches Err(LedgerError::Program(e)) ==> check == Some(e)
                    &&& forall|a: Seq<u8>|
                        derived(credential_seeds(election_key@, voter@), old(self).program_id@)
                            == Some(a) && !#[trigger] acct.credential_at(a) && check is None && (
                        forall|h: int|
                            0 <= h < acct.holdings@.len() && (#[trigger] acct.holdings@[h]).owner@
                                == voter@ ==> acct.holdings@[h].amount < u64::MAX) ==> r is Ok
                    &&& r matches Ok(key) ==> {
                        let after = final(self).elections@[k];
                        &&& derived(credential_seeds(election_key@, voter@), old(self).program_id@)
                            == Some(key@)
                        &&& check is None
                        &&& final(self).elections@ == old(self).elections@.update(
                            k,
                            ElectionAccount {
                                data: after.data,
                                credentials: after.credentials,
                                holdings: after.holdings,
                                ..acct
                            },
                        )
                        &&& after.data == (Election {
                            total_registered_voters: (acct.data.total_registered_voters + 1) as u64,
                            ..acct.data
                        })
                        &&& after.credentials@.drop_last() == acct.credentials@
                        &&& after.credentials@.len() == acct.credentials@.len() + 1
                        &&& after.credentials@.last().address@ == key@
                        &&& issued_credential(
                            after.credentials@.last().data,
                            election_key,
                            voter,
                            after.credentials@.last().data.bump,
                            voter_nik@,
                            biometric_hash@,
                            photo_ipfs_hash@,
                            verification_timestamp,
                            ai_confidence_score,
                        )
                        &&& forall|h: int|
                            0 <= h < acct.holdings@.len() && (#[trigger] acct.holdings@[h]).owner@
                                == voter@ ==> acct.holdings@[h].amount < u64::MAX
                                && after.holdings@ == acct.holdings@.update(
                                h,
                                TokenHolding {
                                    amount: (acct.holdings@[h].amount + 1) as u64,
                                    ..acct.holdings@[h]
                                },
                            )
                        &&& (forall|h: int|
                            0 <= h < acct.holdings@.len() ==> (#[trigger] acct.holdings@[h]).owner@
                                != voter@) ==> after.holdings@ == acct.holdings@.push(
                            TokenHolding { owner: voter, amount: 1 },
                        )
                    }
                },
    {
        let k = match self.find_election(&election_key) {
            Some(k) => k,
            None => {
                return Err(LedgerError::AccountNotFound);
            },
        };
        let ghost acct = self.elections@[k as int];
        let (address, bump) = match credential_address(&self.program_id, &election_key, &voter) {
            Some(p) => p,
            None => {
                proof {
                    self.lemma_credential_address(k as int, voter@);
                }
                return Err(LedgerError::AddressDerivationFailed);
            },
        };
        if self.elections[k].find_credential(&address).is_some() {
            return Err(LedgerError::AccountAlreadyInUse);
        }
        proof {
            self.lemma_credential_address(k as int, voter@);
        }
        let h = self.elections[k].find_holding(&voter);
        let mint_full = match h {
            Some(h) => self.elections[k].holdings[h].amount == u64::MAX,
            None => false,
        };
        if let Err(e) = verify_voter_check(
            &self.elections[k].data,
            voter_nik.as_str(),
            photo_ipfs_hash.as_str(),
            ai_confidence_score,
            now,
        ) {
            if !(mint_full && e == ErrorCode::Overflow) {
                return Err(LedgerError::Program(e));
            }
        }
        if mint_full {
            return Err(LedgerError::TokenOverflow);
        }
        let credential = match verify_voter(
            &mut self.elections[k].data,
            election_key,
            voter,
            bump,
            voter_nik,
            biometric_hash,
            photo_ipfs_hash,
            verification_timestamp,
            ai_confidence_score,
            now,
        ) {
            Ok(c) => c,
            Err(e) => {
                return Err(LedgerError::Program(e));
            },
        };
        self.elections[k].credentials.push(CredentialAccount { address, data: credential });
        match h {
            Some(h) => {
                let owner = self.elections[k].holdings[h].owner;
                let amount = self.elections[k].holdings[h].amount;
                self.elections[k].holdings.set(h, TokenHolding { owner, amount: amount + 1 });
            },
            None => {
                self.elections[k].holdings.push(TokenHolding { owner: voter, amount: 1 });
            },
        }
        let ghost after = self.elections@[k as int];
        assert(after.credentials@.drop_last() =~= acct.credentials@);
        assert(self.elections@ =~= old(self).elections@.update(
            k as int,
            ElectionAccount {
                data: after.data,
                credentials: after.credentials,
                holdings: after.holdings,
                ..acct
            },
        ));
        assert forall|h2: int|
            0 <= h2 < acct.holdings@.len() && (#[trigger] acct.holdings@[h2]).owner@ == voter@
                implies after.holdings@ == acct.holdings@.update(
            h2,
            TokenHolding { amount: (acct.holdings@[h2].amount + 1) as u64, ..acct.holdings@[h2] },
        ) by {
            assert(acct.wf(self.program_id@));
            assert(after.holdings@ =~= acct.holdings@.update(
                h2,
                TokenHolding { amount: (acct.holdings@[h2].amount + 1) as u64, ..acct.holdings@[h2] },
            ));
        }
        assert(after.wf(self.program_id@)) by {
            assert forall|i: int, j: int|
                0 <= i < after.credentials@.len() && 0 <= j < after.credentials@.len() && i != j
                    implies (#[trigger] after.credentials@[i]).address@ != (
                #[trigger] after.credentials@[j]).address@ by {
                if i < acct.credentials@.len() && j < acct.credentials@.len() {
                    assert(acct.credentials@[i] == after.credentials@[i]);
                    assert(acct.credentials@[j] == after.credentials@[j]);
                }
            }
            assert forall|i: int|
                0 <= i < after.credentials@.len() implies derived(
                credential_seeds(after.address@, (#[trigger] after.credentials@[i]).data.voter_authority@),
                self.program_id@,
            ) == Some(after.credentials@[i].address@) by {
                if i < acct.credentials@.len() {
                    assert(acct.credentials@[i] == after.credentials@[i]);
                }
            }
            assert forall|i: int, j: int|
                0 <= i < after.holdings@.len() && 0 <= j < after.holdings@.len() && i != j
                    implies (#[trigger] after.holdings@[i]).owner@ != (
                #[trigger] after.holdings@[j]).owner@ by {
                if i < acct.holdings@.len() && j < acct.holdings@.len() {
                    assert(acct.holdings@[i].owner == after.holdings@[i].owner);
                    assert(acct.holdings@[j].owner == after.holdings@[j].owner);
                }
            }
            assert forall|i: int|
                0 <= i < after.ballots@.len() implies (#[trigger] after.ballots@[i]).data.ballot_sequence
                == i by {
                assert(acct.ballots@[i] == after.ballots@[i]);
            }
        }
        assert forall|k2: int| 0 <= k2 < self.elections@.len() implies (
        #[trigger] self.elections@[k2]).wf(self.program_id@) by {
            if k2 != k {
                assert(old(self).elections@[k2] == self.elections@[k2]);
            }
        }
        assert forall|k2: int, l: int|
            0 <= k2 < self.elections@.len() && 0 <= l < self.elections@.len() && k2 != l
                implies (#[trigger] self.elections@[k2]).address@ != (
            #[trigger] self.elections@[l]).address@ by {
            assert(old(self).elections@[k2].address == self.elections@[k2].address);
            assert(old(self).elections@[l].address == self.elections@[l].address);
        }
        Ok(address)
    }

    /// In a well-formed store, a voter who holds a credential of an
    /// election holds it at the address derived from (election, voter).
    proof fn lemma_credential_address(&self, k: int, voter: Seq<u8>)
        requires
            self.wf(),
            0 <= k < self.elections@.len(),
        ensures
            self.elections@[k].has_credential_of(voter) ==> (derived(
                credential_seeds(self.elections@[k].address@, voter),
                self.program_id@,
            ) matches Some(a) && self.elections@[k].credential_at(a)),
    {
        let acct = self.elections@[k];
        assert(acct.wf(self.program_id@));
        if acct.has_credential_of(voter) {
            let i = choose|i: int|
                0 <= i < acct.credentials@.len() && (#[trigger] acct.credentials@[i]).data.voter_authority@
                    == voter;
            assert(derived(credential_seeds(acct.address@, acct.credentials@[i].data.voter_authority@), self.program_id@)
                == Some(acct.credentials@[i].address@));
        }
    }
}


impl Ledger {
    /// Casts `voter`'s vote for candidate `candidate_id` in the election at
    /// `election_key`: burns one of the voter's voting-rights units, marks
    /// their credential as voted, records an anonymous ballot at the next
    /// sequence number and counts the vote. Returns the ballot's sequence
    /// number. The store changes only on success.
    pub fn cast_vote(
        &mut self,
        voter: Pubkey,
        election_key: Pubkey,
        candidate_id: u32,
        encrypted_vote_data: [u8; 32],
        now: i64,
    ) -> (r: Result<u64, LedgerError>)
        requires
            old(self).wf(),
        ensures
            final(self).wf(),
            final(self).program_id == old(self).program_id,
            r is Err ==> *final(self) == *old(self),
            !old(self).has_election(election_key@) ==> r == Err::<u64, LedgerError>(
                LedgerError::AccountNotFound,
            ),
            forall|k: int|
                old(self).election_at(k, election_key@) ==> {
                    let acct = old(self).elections@[k];
                    let after = final(self).elections@[k];
                    // a voter whose credential has voted cannot vote again
                    &&& forall|i: int|
                        0 <= i < acct.credentials@.len()
                            && (#[trigger] acct.credentials@[i]).data.voter_authority@ == voter@
                            && acct.credentials@[i].data.has_voted ==> r is Err
                    // nor can a voter who holds no voting-rights unit
                    &&& forall|h: int|
                        0 <= h < acct.holdings@.len() && (#[trigger] acct.holdings@[h]).owner@
                            == voter@ && acct.holdings@[h].amount == 0 ==> r is Err
                    &&& !acct.has_credential_of(voter@) ==> r is Err
                    // with the accounts in place, the program and the token
                    // holding decide the outcome
                    &&& forall|i: int, j: int, h: int, a: Seq<u8>|
                        0 <= i < acct.credentials@.len() && 0 <= j < acct.candidates@.len() && 0
                            <= h < acct.holdings@.len()
                            && (#[trigger] acct.credentials@[i]).data.voter_authority@ == voter@
                            && (#[trigger] acct.candidates@[j]).data.candidate_id == candidate_id
                            && (#[trigger] acct.holdings@[h]).owner@ == voter@ && derived(
                            ballot_seeds(election_key@, acct.data.total_votes_cast),
                            old(self).program_id@,
                        ) == Some(a) && !#[trigger] acct.ballot_at(a) ==> match cast_vote_error(
                            acct.data,
                            acct.credentials@[i].data,
                            acct.candidates@[j].data,
                            now,
                        ) {
                            Some(e) => if acct.holdings@[h].amount == 0 && e == ErrorCode::Overflow {
                                r == Err::<u64, LedgerError>(LedgerError::InsufficientFunds)
                            } else {
                                r == Err::<u64, LedgerError>(LedgerError::Program(e))
                            },
                            None => if acct.holdings@[h].amount == 0 {
                                r == Err::<u64, LedgerError>(LedgerError::InsufficientFunds)
                            } else {
                                r == Ok::<u64, LedgerError>(acct.data.total_votes_cast)
                            },
                        }
                    &&& r matches Ok(sequence) ==> {
                        &&& sequence == acct.data.total_votes_cast
                        &&& final(self).elections@ == old(self).elections@.update(
                            k,
                            ElectionAccount {
                                data: after.data,
                                candidates: after.candidates,
                                credentials: after.credentials,
                                ballots: after.ballots,
                                holdings: after.holdings,
                                ..acct
                            },
                        )
                        &&& after.data == (Election {
                            total_votes_cast: (acct.data.total_votes_cast + 1) as u64,
                            ..acct.data
                        })
                        &&& after.ballots@.drop_last() == acct.ballots@
                        &&& after.ballots@.len() == acct.ballots@.len() + 1
                        &&& after.ballots@.last().data.ballot_sequence == sequence
                        &&& derived(ballot_seeds(election_key@, sequence), old(self).program_id@)
                            == Some(after.ballots@.last().address@)
                        &&& after.ballots@.last().data.election@ == election_key@
                        &&& after.ballots@.last().data.timestamp == now
                        &&& after.ballots@.last().data.encrypted_vote_data@ == encrypted_vote_data@
                        &&& derived(candidate_seeds(election_key@, candidate_id), old(self).program_id@)
                            == Some(after.ballots@.last().data.candidate@)
                        &&& exists|i: int|
                            0 <= i < acct.credentials@.len()
                                && (#[trigger] acct.credentials@[i]).data.voter_authority@ == voter@
                                && after.credentials@ == acct.credentials@.update(
                                i,
                                CredentialAccount {
                                    data: VoterCredential {
                                        has_voted: true,
                                        vote_timestamp: Some(now),
                                        ..acct.credentials@[i].data
                                    },
                                    ..acct.credentials@[i]
                                },
                            ) && after.ballots@.last().data.verification_receipt@
                                == ballot_receipt_of(
                                voter@,
                                acct.credentials@[i].data.verification_code@,
                                now,
                            )
                        &&& exists|j: int|
                            0 <= j < acct.candidates@.len()
                                && (#[trigger] acct.candidates@[j]).address@
                                == after.ballots@.last().data.candidate@
                                && after.candidates@ == acct.candidates@.update(
                                j,
                                CandidateAccount {
                                    data: Candidate {
                                        vote_count: (acct.candidates@[j].data.vote_count + 1) as u64,
                                        ..acct.candidates@[j].data
                                    },
                                    ..acct.candidates@[j]
                                },
                            )
                        &&& exists|h: int|
                            0 <= h < acct.holdings@.len() && (#[trigger] acct.holdings@[h]).owner@
                                == voter@ && acct.holdings@[h].amount > 0 && after.holdings@
                                == acct.holdings@.update(
                                h,
                                TokenHolding {
                                    amount: (acct.holdings@[h].amount - 1) as u64,
                                    ..acct.holdings@[h]
                                },
                            )
                    }
                },
    {
        let k = match self.find_election(&election_key) {
            Some(k) => k,
            None => {
                return Err(LedgerError::AccountNotFound);
            },
        };
        let ghost acct = self.elections@[k as int];
        proof {
            self.lemma_credential_address(k as int, voter@);
            assert(acct.wf(self.program_id@));
        }
        let credential_key = match credential_address(&self.program_id, &election_key, &voter) {
            Some(p) => p.0,
            None => {
                return Err(LedgerError::AddressDerivationFailed);
            },
        };
        let i = match self.elections[k].find_credential(&credential_key) {
            Some(i) => i,
            None => {
                return Err(LedgerError::AccountNotFound);
            },
        };
        if !self.elections[k].credentials[i].data.voter_authority.equals(&voter) {
            return Err(LedgerError::Unauthorized);
        }
        let candidate_key = match candidate_address(&self.program_id, &election_key, candidate_id) {
            Some(p) => p.0,
            None => {
                return Err(LedgerError::AddressDerivationFailed);
            },
        };
        let j = match self.elections[k].find_candidate(&candidate_key) {
            Some(j) => j,
            None => {
                return Err(LedgerError::AccountNotFound);
            },
        };
        let sequence = self.elections[k].data.total_votes_cast;
        let (ballot_key, bump) = match ballot_address(&self.program_id, &election_key, sequence) {
            Some(p) => p,
            None => {
                return Err(LedgerError::AddressDerivationFailed);
            },
        };
        if self.elections[k].find_ballot(&ballot_key).is_some() {
            return Err(LedgerError::AccountAlreadyInUse);
        }
        let h = match self.elections[k].find_holding(&voter) {
            Some(h) => h,
            None => {
                return Err(LedgerError::AccountNotFound);
            },
        };
        let empty = self.elections[k].holdings[h].amount == 0;
        if let Err(e) = cast_vote_check(
            &self.elections[k].data,
            &self.elections[k].credentials[i].data,
            &self.elections[k].candidates[j].data,
            now,
        ) {
            if !(empty && e == ErrorCode::Overflow) {
                return Err(LedgerError::Program(e));
            }
        }
        if empty {
            return Err(LedgerError::InsufficientFunds);
        }
        let ghost c_old = acct.credentials@[i as int];
        let ballot = {
            let account = &mut self.elections[k];
            match cast_vote(
                &mut account.data,
                &mut account.credentials[i].data,
                &mut account.candidates[j].data,
                voter,
                election_key,
                candidate_key,
                bump,
                encrypted_vote_data,
                now,
            ) {
                Ok(b) => b,
                Err(e) => {
                    return Err(LedgerError::Program(e));
                },
            }
        };
        let owner = self.elections[k].holdings[h].owner;
        let amount = self.elections[k].holdings[h].amount;
        self.elections[k].holdings.set(h, TokenHolding { owner, amount: amount - 1 });
        self.elections[k].ballots.push(BallotAccount { address: ballot_key, data: ballot });
        let ghost after = self.elections@[k as int];
        assert(after.ballots@.drop_last() =~= acct.ballots@);
        assert(self.elections@ =~= old(self).elections@.update(
            k as int,
            ElectionAccount {
                data: after.data,
                candidates: after.candidates,
                credentials: after.credentials,
                ballots: after.ballots,
                holdings: after.holdings,
                ..acct
            },
        ));
        assert(after.credentials@ =~= acct.credentials@.update(
            i as int,
            CredentialAccount {
                data: VoterCredential { has_voted: true, vote_timestamp: Some(now), ..c_old.data },
                ..c_old
            },
        ));
        assert(after.candidates@ =~= acct.candidates@.update(
            j as int,
            CandidateAccount {
                data: Candidate {
                    vote_count: (acct.candidates@[j as int].data.vote_count + 1) as u64,
                    ..acct.candidates@[j as int].data
                },
                ..acct.candidates@[j as int]
            },
        ));
        assert(after.holdings@ =~= acct.holdings@.update(
            h as int,
            TokenHolding { amount: (acct.holdings@[h as int].amount - 1) as u64, ..acct.holdings@[h as int] },
        ));
        assert(after.wf(self.program_id@)) by {
            assert forall|i2: int, j2: int|
                0 <= i2 < after.credentials@.len() && 0 <= j2 < after.credentials@.len() && i2 != j2
                    implies (#[trigger] after.credentials@[i2]).address@ != (
                #[trigger] after.credentials@[j2]).address@ by {
                assert(acct.credentials@[i2].address == after.credentials@[i2].address);
                assert(acct.credentials@[j2].address == after.credentials@[j2].address);
            }
            assert forall|i2: int|
                0 <= i2 < after.credentials@.len() implies derived(
                credential_seeds(after.address@, (#[trigger] after.credentials@[i2]).data.voter_authority@),
                self.program_id@,
            ) == Some(after.credentials@[i2].address@) by {
                assert(acct.credentials@[i2].address == after.credentials@[i2].address);
                assert(acct.credentials@[i2].data.voter_authority
                    == after.credentials@[i2].data.voter_authority);
            }
            assert forall|i2: int, j2: int|
                0 <= i2 < after.holdings@.len() && 0 <= j2 < after.holdings@.len() && i2 != j2
                    implies (#[trigger] after.holdings@[i2]).owner@ != (
                #[trigger] after.holdings@[j2]).owner@ by {
                assert(acct.holdings@[i2].owner == after.holdings@[i2].owner);
                assert(acct.holdings@[j2].owner == after.holdings@[j2].owner);
            }
            assert forall|i2: int|
                0 <= i2 < after.ballots@.len() implies (#[trigger] after.ballots@[i2]).data.ballot_sequence
                == i2 by {
                if i2 < acct.ballots@.len() {
                    assert(acct.ballots@[i2] == after.ballots@[i2]);
                }
            }
        }
        assert forall|k2: int| 0 <= k2 < self.elections@.len() implies (
        #[trigger] self.elections@[k2]).wf(self.program_id@) by {
            if k2 != k {
                assert(old(self).elections@[k2] == self.elections@[k2]);
            }
        }
        assert forall|k2: int, l: int|
            0 <= k2 < self.elections@.len() && 0 <= l < self.elections@.len() && k2 != l
                implies (#[trigger] self.elections@[k2]).address@ != (
            #[trigger] self.elections@[l]).address@ by {
            assert(old(self).elections@[k2].address == self.elections@[k2].address);
            assert(old(self).elections@[l].address == self.elections@[l].address);
        }
        proof {
            assert forall|k2: int| old(self).election_at(k2, election_key@) implies k2 == k by {
                if k2 != k {
                    assert(old(self).elections@[k2].address@ != old(self).elections@[k as int].address@);
                }
            }
            assert(acct.credentials@[i as int].data.voter_authority@ == voter@);
            assert(acct.candidates@[j as int].address@ == after.ballots@.last().data.candidate@);
            assert(acct.holdings@[h as int].owner@ == voter@);
            assert forall|i2: int|
                0 <= i2 < acct.credentials@.len()
                    && (#[trigger] acct.credentials@[i2]).data.voter_authority@ == voter@ implies i2
                == i by {
                if i2 != i {
                    assert(acct.credentials@[i2].address@ != acct.credentials@[i as int].address@);
                }
            }
            assert forall|h2: int|
                0 <= h2 < acct.holdings@.len() && (#[trigger] acct.holdings@[h2]).owner@ == voter@
                    implies h2 == h by {
                if h2 != h {
                    assert(acct.holdings@[h2].owner@ != acct.holdings@[h as int].owner@);
                }
            }
        }
        Ok(sequence)
    }
}


/// `key` is one of the election's commissioners.
pub open spec fn commissioner_of(election: Election, key: Seq<u8>) -> bool {
    exists|i: int|
        0 <= i < election.commissioners@.len() && (#[trigger] election.commissioners@[i])@ == key
}

impl Ledger {
    proof fn lemma_only_index(&self, k: int, key: Seq<u8>)
        requires
            self.wf(),
            self.election_at(k, key),
        ensures
            forall|k2: int| self.election_at(k2, key) ==> k2 == k,
    {
        assert forall|k2: int| self.election_at(k2, key) implies k2 == k by {
            if k2 != k {
                assert(self.elections@[k2].address@ != self.elections@[k].address@);
            }
        }
    }

    /// Opens voting in the election at `election_key`, on the request of one
    /// of its commissioners. The store changes only on success.
    pub fn activate_election(&mut self, commissioner: Pubkey, election_key: Pubkey, now: i64) -> (r:
        Result<(), LedgerError>)
        requires
            old(self).wf(),
        ensures
            final(self).wf(),
            final(self).program_id == old(self).program_id,
            r is Err ==> *final(self) == *old(self),
            !old(self).has_election(election_key@) ==> r == Err::<(), LedgerError>(
                LedgerError::AccountNotFound,
            ),
            forall|k: int|
                old(self).election_at(k, election_key@) ==> {
                    let acct = old(self).elections@[k];
                    &&& !commissioner_of(acct.data, commissioner@) ==> r == Err::<(), LedgerError>(
                        LedgerError::Unauthorized,
                    )
                    &&& commissioner_of(acct.data, commissioner@) ==> match activate_election_error(
                        acct.data,
                        now,
                    ) {
                        Some(e) => r == Err::<(), LedgerError>(LedgerError::Program(e)),
                        None => r is Ok && final(self).elections@ == old(self).elections@.update(
                            k,
                            ElectionAccount {
                                data: Election { is_active: true, ..acct.data },
                                ..acct
                            },
                        ),
                    }
                },
    {
        let k = match self.find_election(&election_key) {
            Some(k) => k,
            None => {
                return Err(LedgerError::AccountNotFound);
            },
        };
        proof {
            self.lemma_only_index(k as int, election_key@);
            assert(self.elections@[k as int].wf(self.program_id@));
        }
        if !is_commissioner(&self.elections[k].data.commissioners, &commissioner) {
            return Err(LedgerError::Unauthorized);
        }
        if let Err(e) = activate_election_check(&self.elections[k].data, now) {
            return Err(LedgerError::Program(e));
        }
        let ghost data = Election { is_active: true, ..self.elections@[k as int].data };
        let account = &mut self.elections[k];
        match activate_election(&mut account.data, now) {
            Ok(()) => {},
            Err(e) => {
                return Err(LedgerError::Program(e));
            },
        }
        proof {
            assert(self.elections@ =~= old(self).elections@.update(
                k as int,
                ElectionAccount { data, ..old(self).elections@[k as int] },
            ));
            assert forall|k2: int| 0 <= k2 < self.elections@.len() implies (
            #[trigger] self.elections@[k2]).wf(self.program_id@) by {
                if k2 != k {
                    assert(old(self).elections@[k2] == self.elections@[k2]);
                }
            }
            assert forall|k2: int, l: int|
                0 <= k2 < self.elections@.len() && 0 <= l < self.elections@.len() && k2 != l
                    implies (#[trigger] self.elections@[k2]).address@ != (
                #[trigger] self.elections@[l]).address@ by {
                assert(old(self).elections@[k2].address == self.elections@[k2].address);
                assert(old(self).elections@[l].address == self.elections@[l].address);
            }
        }
        Ok(())
    }

    /// Closes voting in the election at `election_key`, on the request of one
    /// of its commissioners. The store changes only on success.
    pub fn finalize_election(&mut self, commissioner: Pubkey, election_key: Pubkey, now: i64) -> (r:
        Result<(), LedgerError>)
        requires
            old(self).wf(),
        ensures
            final(self).wf(),
            final(self).program_id == old(self).program_id,
            r is Err ==> *final(self) == *old(self),
            !old(self).has_election(election_key@) ==> r == Err::<(), LedgerError>(
                LedgerError::AccountNotFound,
            ),
            forall|k: int|
                old(self).election_at(k, election_key@) ==> {
                    let acct = old(self).elections@[k];
                    &&& !commissioner_of(acct.data, commissioner@) ==> r == Err::<(), LedgerError>(
                        LedgerError::Unauthorized,
                    )
                    &&& commissioner_of(acct.data, commissioner@) ==> match finalize_election_error(
                        acct.data,
                        now,
                    ) {
                        Some(e) => r == Err::<(), LedgerError>(LedgerError::Program(e)),
                        None => r is Ok && final(self).elections@ == old(self).elections@.update(
                            k,
                            ElectionAccount {
                                data: Election { is_active: false, is_finalized: true, ..acct.data },
                                ..acct
                            },
                        ),
                    }
                },
    {
        let k = match self.find_election(&election_key) {
            Some(k) => k,
            None => {
                return Err(LedgerError::AccountNotFound);
            },
        };
        proof {
            self.lemma_only_index(k as int, election_key@);
            assert(self.elections@[k as int].wf(self.program_id@));
        }
        if !is_commissioner(&self.elections[k].data.commissioners, &commissioner) {
            return Err(LedgerError::Unauthorized);
        }
        if let Err(e) = finalize_election_check(&self.elections[k].data, now) {
            return Err(LedgerError::Program(e));
        }
        let ghost data = Election {
            is_active: false,
            is_finalized: true,
            ..self.elections@[k as int].data
        };
        let account = &mut self.elections[k];
        match finalize_election(&mut account.data, now) {
            Ok(()) => {},
            Err(e) => {
                return Err(LedgerError::Program(e));
            },
        }
        proof {
            assert(self.elections@ =~= old(self).elections@.update(
                k as int,
                ElectionAccount { data, ..old(self).elections@[k as int] },
            ));
            assert forall|k2: int| 0 <= k2 < self.elections@.len() implies (
            #[trigger] self.elections@[k2]).wf(self.program_id@) by {
                if k2 != k {
                    assert(old(self).elections@[k2] == self.elections@[k2]);
                }
            }
            assert forall|k2: int, l: int|
                0 <= k2 < self.elections@.len() && 0 <= l < self.elections@.len() && k2 != l
                    implies (#[trigger] self.elections@[k2]).address@ != (
                #[trigger] self.elections@[l]).address@ by {
                assert(old(self).elections@[k2].address == self.elections@[k2].address);
                assert(old(self).elections@[l].address == self.elections@[l].address);
            }
        }
        Ok(())
    }

    /// The identity-verification evidence of `voter`'s credential in the
    /// election at `election_key`, for one of its commissioners. Nothing is
    /// modified.
    pub fn audit_verification(&self, commissioner: Pubkey, election_key: Pubkey, voter: Pubkey) -> (r:
        Result<AuditData, LedgerError>)
        requires
            self.wf(),
        ensures
            !self.has_election(election_key@) ==> r == Err::<AuditData, LedgerError>(
                LedgerError::AccountNotFound,
            ),
            forall|k: int|
                self.election_at(k, election_key@) ==> {
                    let acct = self.elections@[k];
                    &&& !commissioner_of(acct.data, commissioner@) ==> r
                        == Err::<AuditData, LedgerError>(LedgerError::Unauthorized)
                    &&& commissioner_of(acct.data, commissioner@) && acct.has_credential_of(voter@)
                        ==> r is Ok
                    &&& r matches Ok(a) ==> exists|i: int|
                        0 <= i < acct.credentials@.len()
                            && (#[trigger] acct.credentials@[i]).data.voter_authority@ == voter@
                            && a.voter_nik_hash == acct.credentials@[i].data.voter_nik_hash
                            && a.biometric_hash == acct.credentials@[i].data.biometric_hash
                            && a.ai_confidence_score == acct.credentials@[i].data.ai_confidence_score
                            && a.verification_timestamp
                            == acct.credentials@[i].data.verification_timestamp
                            && a.has_voted == acct.credentials@[i].data.has_voted
                            && a.is_verified == acct.credentials@[i].data.is_verified
                },
    {
        let k = match self.find_election(&election_key) {
            Some(k) => k,
            None => {
                return Err(LedgerError::AccountNotFound);
            },
        };
        proof {
            self.lemma_only_index(k as int, election_key@);
            self.lemma_credential_address(k as int, voter@);
        }
        if !is_commissioner(&self.elections[k].data.commissioners, &commissioner) {
            return Err(LedgerError::Unauthorized);
        }
        let i = match self.find_credential_of(k, &election_key, &voter) {
            Some(i) => i,
            None => {
                return Err(LedgerError::AccountNotFound);
            },
        };
        Ok(audit_verification(&self.elections[k].credentials[i].data))
    }

    /// Lets `voter` confirm that the ballot with number `sequence` in the
    /// election at `election_key` was recorded for them. Nothing is
    /// modified.
    pub fn verify_ballot_receipt(&self, voter: Pubkey, election_key: Pubkey, sequence: u64) -> (r:
        Result<ReceiptVerification, LedgerError>)
        requires
            self.wf(),
        ensures
            !self.has_election(election_key@) ==> r == Err::<ReceiptVerification, LedgerError>(
                LedgerError::AccountNotFound,
            ),
            forall|k: int|
                self.election_at(k, election_key@) ==> {
                    let acct = self.elections@[k];
                    &&& !acct.has_credential_of(voter@) ==> r is Err
                    &&& sequence >= acct.data.total_votes_cast ==> r is Err
                    &&& acct.has_credential_of(voter@) && sequence < acct.data.total_votes_cast
                        ==> r is Ok
                    &&& r matches Ok(v) ==> exists|i: int|
                        0 <= i < acct.credentials@.len()
                            && (#[trigger] acct.credentials@[i]).data.voter_authority@ == voter@
                            && v.is_valid == receipt_matches(
                            voter,
                            acct.credentials@[i].data,
                            acct.ballots@[sequence as int].data,
                        ) && v.ballot_sequence == sequence && v.timestamp
                            == acct.ballots@[sequence as int].data.timestamp
                            && v.verification_code@ == acct.credentials@[i].data.verification_code@
                },
    {
        let k = match self.find_election(&election_key) {
            Some(k) => k,
            None => {
                return Err(LedgerError::AccountNotFound);
            },
        };
        proof {
            self.lemma_only_index(k as int, election_key@);
            self.lemma_credential_address(k as int, voter@);
            assert(self.elections@[k as int].wf(self.program_id@));
        }
        let i = match self.find_credential_of(k, &election_key, &voter) {
            Some(i) => i,
            None => {
                return Err(LedgerError::AccountNotFound);
            },
        };
        let ghost acct = self.elections@[k as int];
        proof {
            if sequence < acct.data.total_votes_cast {
                assert(acct.ballots@[sequence as int].data.ballot_sequence == sequence);
            }
        }
        let ballot_key = match ballot_address(&self.program_id, &election_key, sequence) {
            Some(p) => p.0,
            None => {
                return Err(LedgerError::AddressDerivationFailed);
            },
        };
        let b = match self.elections[k].find_ballot(&ballot_key) {
            Some(b) => b,
            None => {
                return Err(LedgerError::AccountNotFound);
            },
        };
        proof {
            if sequence < acct.data.total_votes_cast && b as int != sequence as int {
                assert(acct.ballots@[b as int].address@ != acct.ballots@[sequence as int].address@);
            }
        }
        if self.elections[k].ballots[b].data.ballot_sequence != sequence {
            return Err(LedgerError::AccountNotFound);
        }
        Ok(
            verify_ballot_receipt(
                voter,
                &self.elections[k].credentials[i].data,
                &self.elections[k].ballots[b].data,
            ),
        )
    }

    /// The index of `voter`'s credential in the election at index `k`
    /// (whose address is `election_key`), found at the address derived from
    /// (election, voter).
    fn find_credential_of(&self, k: usize, election_key: &Pubkey, voter: &Pubkey) -> (r: Option<
        usize,
    >)
        requires
            self.wf(),
            self.election_at(k as int, election_key@),
        ensures
            r matches Some(i) ==> i < self.elections@[k as int].credentials@.len()
                && self.elections@[k as int].credentials@[i as int].data.voter_authority@ == voter@,
            self.elections@[k as int].has_credential_of(voter@) ==> r is Some,
    {
        proof {
            self.lemma_credential_address(k as int, voter@);
            assert(self.elections@[k as int].wf(self.program_id@));
        }
        let address = match credential_address(&self.program_id, election_key, voter) {
            Some(p) => p.0,
            None => {
                return None;
            },
        };
        let i = match self.elections[k].find_credential(&address) {
            Some(i) => i,
            None => {
                return None;
            },
        };
        if !self.elections[k].credentials[i].data.voter_authority.equals(voter) {
            return None;
        }
        Some(i)
    }
}

} // verus!
