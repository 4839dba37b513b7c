//! The election itself: its stored state and the calls that read and change it.

use std::collections::HashMap;
use vstd::prelude::*;
use crate::entities::{
    copy_bytes, AccountId, Ballot, BallotKey, BallotKeyView, BlindSignature, BlockNumber, Candidate,
    CandidateView, Error, Event, Voter, VoterView,
};
use crate::phase::ElectionPhase;
use crate::rsa::CandidateKey;
use crate::signature_set::repeats_candidate;
use crate::state::{blank_candidate, seeded_candidates, voter_message, ElectionState};

verus! {

/// An election's stored state. Every call takes the identity of its caller,
/// checks it, and either fails with an `Error` and changes nothing, or makes all
/// of its changes.
pub struct Pallet {
    central_authority: Option<AccountId>,
    ballot_key: Option<BallotKey>,
    phase: Option<ElectionPhase>,
    candidates: HashMap<AccountId, Candidate>,
    candidates_count: Option<u64>,
    /// Voter `id` is stored at index `id - 1`.
    voters: Vec<Voter>,
    blinded_signatures: HashMap<u64, HashMap<AccountId, Vec<u8>>>,
    ballots: HashMap<AccountId, Ballot>,
    events: Vec<Event>,
}

pub open spec fn signatures_view(m: HashMap<AccountId, Vec<u8>>) -> Map<AccountId, Seq<u8>> {
    m@.map_values(|s: Vec<u8>| s@)
}

impl View for Pallet {
    type V = ElectionState;

    closed spec fn view(&self) -> ElectionState {
        ElectionState {
            central_authority: self.central_authority,
            ballot_key: match self.ballot_key {
                Some(k) => Some(k@),
                None => None,
            },
            phase: self.phase,
            candidates: self.candidates@.map_values(|c: Candidate| c@),
            candidates_count: self.candidates_count,
            voters: self.voters@.map_values(|v: Voter| v@),
            blinded_signatures: self.blinded_signatures@.map_values(
                |m: HashMap<AccountId, Vec<u8>>| signatures_view(m),
            ),
            ballots: self.ballots@.map_values(|b: Ballot| b@),
            events: self.events@,
        }
    }
}

impl Pallet {
    /// The stored state keeps the election's invariants; every `Pallet` that
    /// genesis builds does, and every call preserves them.
    pub open spec fn wf(&self) -> bool {
        self@.wf()
    }

    /// Storage before genesis.
    pub(crate) fn empty() -> (r: Pallet)
        ensures
            r@ == ElectionState::empty(),
    {
        let r = Pallet {
            central_authority: None,
            ballot_key: None,
            phase: None,
            candidates: HashMap::new(),
            candidates_count: None,
            voters: Vec::new(),
            blinded_signatures: HashMap::new(),
            ballots: HashMap::new(),
            events: Vec::new(),
        };
        assert(r@.candidates =~= Map::empty());
        assert(r@.voters =~= Seq::empty());
        assert(r@.blinded_signatures =~= Map::empty());
        assert(r@.ballots =~= Map::empty());
        assert(r@.events =~= Seq::empty());
        r
    }

    /// Writes a genesis configuration into the storage.
    pub(crate) fn apply_genesis(
        &mut self,
        central_authority: Option<AccountId>,
        candidates: &Vec<AccountId>,
        ballot_public_key: &Vec<u8>,
    )
        requires
            old(self)@.records_wf(),
        ensures
            final(self).wf(),
            final(self)@ == old(self)@.with_genesis(
                central_authority,
                candidates@,
                ballot_public_key@,
            ),
    {
        let ghost before = self@;
        self.phase = Some(ElectionPhase::Initialization);
        if central_authority.is_some() {
            self.central_authority = central_authority;
        }
        self.ballot_key = Some(BallotKey { public: copy_bytes(ballot_public_key), private: Vec::new() });
        self.candidates_count = Some(candidates.len() as u64);
        let mut i: usize = 0;
        assert(seeded_candidates(before.candidates, candidates@.subrange(0, 0)) =~= before.candidates);
        assert(self@.ballot_key == Some(BallotKeyView { public: ballot_public_key@, private: Seq::empty() }));
        assert(self@.candidates == before.candidates);
        while i < candidates.len()
            invariant
                i <= candidates.len(),
                self@ == (ElectionState {
                    candidates: seeded_candidates(before.candidates, candidates@.subrange(0, i as int)),
                    ..before.with_genesis(central_authority, candidates@, ballot_public_key@)
                }),
            decreases candidates.len() - i,
        {
            let ghost prior = self@;
            let record = Candidate { name: String::new(), pubkey: Vec::new() };
            assert(record@ == blank_candidate());
            self.candidates.insert(candidates[i], record);
            let ghost done = candidates@.subrange(0, i as int);
            let ghost id = candidates@[i as int];
            assert(candidates@.subrange(0, i + 1) =~= done.push(id));
            assert forall|c: AccountId| #[trigger] done.push(id).contains(c) <==> (done.contains(c) || c == id) by {
                if done.contains(c) {
                    let k = choose|k: int| 0 <= k < done.len() && done[k] == c;
                    assert(done.push(id)[k] == c);
                }
                if c == id {
                    assert(done.push(id)[done.len() as int] == c);
                }
                if done.push(id).contains(c) && c != id {
                    let k = choose|k: int| 0 <= k < done.len() + 1 && done.push(id)[k] == c;
                    assert(done[k] == c);
                }
            }
            assert(self@.candidates =~= prior.candidates.insert(id, blank_candidate()));
            assert(self@.candidates =~= seeded_candidates(before.candidates, done.push(id)));
            i = i + 1;
            assert(self@ =~= (ElectionState {
                candidates: seeded_candidates(before.candidates, candidates@.subrange(0, i as int)),
                ..before.with_genesis(central_authority, candidates@, ballot_public_key@)
            }));
        }
        assert(candidates@.subrange(0, i as int) =~= candidates@);
        assert(self@ =~= before.with_genesis(central_authority, candidates@, ballot_public_key@));
    }

    /// Number of blind signatures stored for `voter`.
    fn signature_count(&self, voter: u64) -> (r: u64)
        requires
            self.wf(),
        ensures
            r == self@.signature_count(voter),
    {
        match self.blinded_signatures.get(&voter) {
            Some(m) => {
                assert(self@.signatures_of(voter).dom() =~= m@.dom());
                m.len() as u64
            },
            None => {
                assert(self@.signatures_of(voter) =~= Map::empty());
                0
            },
        }
    }

    /// Whether every registered voter, scanned by ascending id, holds exactly
    /// one blind signature per candidate.
    fn all_voters_signed(&self) -> (r: bool)
        requires
            self.wf(),
        ensures
            r == self@.all_voters_signed(),
    {
        let count = self.voters.len() as u64;
        let mut voter: u64 = 1;
        while voter <= count
            invariant
                self.wf(),
                1 <= voter <= count + 1,
                count == self@.voters.len(),
                forall|v: u64| 1 <= v < voter ==> #[trigger] self@.fully_signed(v),
            decreases count + 1 - voter,
        {
            let signed = self.signature_count(voter);
            match self.candidates_count {
                Some(n) => {
                    if n != signed {
                        assert(!self@.fully_signed(voter));
                        return false;
                    }
                },
                None => {
                    assert(!self@.fully_signed(voter));
                    return false;
                },
            }
            voter = voter + 1;
        }
        true
    }

    /// Moves the election to its next phase. Only the central authority may do
    /// so, and the election leaves `BiasedSigner` only once every voter holds a
    /// blind signature from every candidate. Records a `PhaseChanged` event
    /// stamped with block `now`.
    pub fn change_phase(&mut self, caller: AccountId, now: BlockNumber) -> (r: Result<(), Error>)
        requires
            old(self).wf(),
        ensures
            final(self).wf(),
            r == old(self)@.change_phase_result(caller),
            r is Ok ==> final(self)@ == old(self)@.after_phase_change(now),
            r is Err ==> final(self)@ == old(self)@,
    {
        match self.central_authority {
            Some(ca) => {
                if ca != caller {
                    return Err(Error::SenderNotCA);
                }
            },
            None => {
                return Err(Error::InternalError);
            },
        }
        if self.phase == Some(ElectionPhase::BiasedSigner) {
            if !self.all_voters_signed() {
                return Err(Error::InvalidPhaseChange);
            }
        }
        let ghost before = self@;
        let next = self.phase.unwrap().increment();
        self.phase = Some(next);
        self.events.push(Event::PhaseChanged { when: now, phase: next });
        assert(self@ =~= before.after_phase_change(now));
        Ok(())
    }

    /// Whether one entry of a signature set holds a valid signature over
    /// `message` by a candidate whose stored key can be read.
    fn entry_accepted(
        &self,
        voter: Ghost<AccountId>,
        message: &Vec<u8>,
        entry: &(AccountId, BlindSignature),
    ) -> (r: bool)
        requires
            self.wf(),
            message@ == voter_message(voter@),
        ensures
            r == self@.entry_accepted(voter@, *entry),
    {
        match self.candidates.get(&entry.0) {
            None => false,
            Some(candidate) => match CandidateKey::from_der(&candidate.pubkey) {
                Err(_) => false,
                Ok(key) => key.verify(&entry.1.signature, Some(entry.1.msg_randomizer), message).is_ok(),
            },
        }
    }

    /// Stores `caller`'s ballot with the new commitment, counting one more vote.
    fn record_ballot(&mut self, caller: AccountId, commitment: Vec<u8>)
        requires
            old(self).wf(),
            old(self)@.can_count_vote(caller),
        ensures
            final(self).wf(),
            final(self)@ == old(self)@.after_vote(caller, commitment@),
    {
        let ghost before = self@;
        let nonce: u64 = match self.ballots.get(&caller) {
            Some(previous) => previous.nonce + 1,
            None => 1,
        };
        let ballot = Ballot { commitment, signature: Vec::new(), nonce };
        assert(ballot@ == before.next_ballot(caller, commitment@));
        self.ballots.insert(caller, ballot);
        assert(self@.ballots =~= before.ballots.insert(caller, ballot@));
        assert(self@ =~= before.after_vote(caller, commitment@));
    }

    /// Casts or replaces `caller`'s ballot during `Voting`. The signature set
    /// must name every candidate exactly once, as many as were registered, each
    /// with a valid signature over the caller's encoded id under that
    /// candidate's key. A first ballot gets nonce 1; each later one replaces the
    /// commitment and adds one to the nonce.
    pub fn vote(
        &mut self,
        caller: AccountId,
        commitment: Vec<u8>,
        signature_set: Vec<(AccountId, BlindSignature)>,
    ) -> (r: Result<(), Error>)
        requires
            old(self).wf(),
            old(self)@.can_count_vote(caller),
        ensures
            final(self).wf(),
            r == old(self)@.vote_result(caller, signature_set@),
            r is Ok ==> final(self)@ == old(self)@.after_vote(caller, commitment@),
            r is Err ==> final(self)@ == old(self)@,
    {
        let message = vstd::bytes::u64_to_le_bytes(caller);
        if self.phase != Some(ElectionPhase::Voting) {
            return Err(Error::InvalidPhase);
        }
        let count: u64 = match self.candidates_count {
            Some(n) => n,
            None => {
                return Err(Error::MissingCandidateCount);
            },
        };
        if signature_set.len() as u64 != count {
            return Err(Error::InvalidBlindSignatures);
        }
        if repeats_candidate(&signature_set) {
            return Err(Error::InvalidBlindSignatures);
        }
        let mut i: usize = 0;
        while i < signature_set.len()
            invariant
                self.wf(),
                i <= signature_set.len(),
                self@ == old(self)@,
                self@.phase == Some(ElectionPhase::Voting),
                self@.candidates_count == Some(count),
                message@ == voter_message(caller),
                forall|j: int| 0 <= j < i ==> #[trigger] self@.entry_accepted(caller, signature_set@[j]),
            decreases signature_set.len() - i,
        {
            if !self.entry_accepted(Ghost(caller), &message, &signature_set[i]) {
                assert(!self@.entry_accepted(caller, signature_set@[i as int]));
                assert(!self@.signature_set_accepted(caller, signature_set@));
                return Err(Error::InvalidBlindSignatures);
            }
            i = i + 1;
        }
        self.record_ballot(caller, commitment);
        Ok(())
    }

    /// Registers a voter during `Registration`, as the central authority. The
    /// voter gets the next id, one past the number of voters so far.
    pub fn add_voter(
        &mut self,
        caller: AccountId,
        blinded_pubkey: Vec<u8>,
        signed_blinded_pubkey: Vec<u8>,
        personal_data_hash: Vec<u8>,
        is_eligible: bool,
    ) -> (r: Result<(), Error>)
        requires
            old(self).wf(),
            old(self)@.voter_count() + 1 < u64::MAX,
        ensures
            final(self).wf(),
            r == old(self)@.add_voter_result(caller),
            r is Ok ==> final(self)@ == old(self)@.after_add_voter(
                VoterView {
                    blinded_pubkey: blinded_pubkey@,
                    is_eligible,
                    signed_blinded_pubkey: signed_blinded_pubkey@,
                    personal_data_hash: personal_data_hash@,
                },
            ),
            r is Err ==> final(self)@ == old(self)@,
    {
        match self.central_authority {
            Some(ca) => {
                if ca != caller {
                    return Err(Error::SenderNotCA);
                }
            },
            None => {
                return Err(Error::InternalError);
            },
        }
        if self.phase != Some(ElectionPhase::Registration) {
            return Err(Error::InvalidPhase);
        }
        let ghost before = self@;
        let voter = Voter { blinded_pubkey, is_eligible, signed_blinded_pubkey, personal_data_hash };
        self.voters.push(voter);
        assert(self@.voters =~= before.voters.push(voter@));
        assert(self@ =~= before.after_add_voter(voter@));
        Ok(())
    }

    /// Sets a candidate's name and public key; only the candidate may do so,
    /// in any phase.
    pub fn update_candidate_info(
        &mut self,
        caller: AccountId,
        candidate: AccountId,
        name: String,
        pubkey: Vec<u8>,
    ) -> (r: Result<(), Error>)
        requires
            old(self).wf(),
        ensures
            final(self).wf(),
            r == old(self)@.update_candidate_result(caller, candidate),
            r is Ok ==> final(self)@ == old(self)@.after_update_candidate(
                candidate,
                CandidateView { name: name@, pubkey: pubkey@ },
            ),
            r is Err ==> final(self)@ == old(self)@,
    {
        if caller != candidate {
            return Err(Error::BadSender);
        }
        let ghost before = self@;
        let record = Candidate { name, pubkey };
        self.candidates.insert(candidate, record);
        assert(self@.candidates =~= before.candidates.insert(candidate, record@));
        assert(self@ =~= before.after_update_candidate(candidate, record@));
        Ok(())
    }

    /// A candidate vouches for a voter: the signature must verify, without a
    /// randomizer, over the voter's blinded key under the candidate's stored
    /// key. Stores it for the pair, replacing an earlier one.
    pub fn biased_signing(
        &mut self,
        caller: AccountId,
        candidate: AccountId,
        voter: u64,
        blinded_signature: Vec<u8>,
    ) -> (r: Result<(), Error>)
        requires
            old(self).wf(),
        ensures
            final(self).wf(),
            r == old(self)@.biased_signing_result(caller, candidate, voter, blinded_signature@),
            r is Ok ==> final(self)@ == old(self)@.after_signing(
                voter,
                candidate,
                blinded_signature@,
            ),
            r is Err ==> final(self)@ == old(self)@,
    {
        if caller != candidate {
            return Err(Error::BadSender);
        }
        if voter == 0 || voter > self.voters.len() as u64 {
            return Err(Error::VoterDoesNotExist);
        }
        let key = match self.candidates.get(&candidate) {
            None => {
                return Err(Error::RSAStorageNotFound);
            },
            Some(record) => match CandidateKey::from_der(&record.pubkey) {
                Err(_) => {
                    return Err(Error::InvalidPublicKey);
                },
                Ok(key) => key,
            },
        };
        let blinded_pubkey = &self.voters[(voter - 1) as usize].blinded_pubkey;
        if key.verify(&blinded_signature, None, blinded_pubkey).is_err() {
            return Err(Error::RSAInvalidSignature);
        }
        let ghost before = self@;
        let mut signatures = match self.blinded_signatures.remove(&voter) {
            Some(m) => m,
            None => HashMap::new(),
        };
        assert(signatures_view(signatures) =~= before.signatures_of(voter));
        signatures.insert(candidate, blinded_signature);
        assert(signatures_view(signatures) =~= before.signatures_of(voter).insert(
            candidate,
            blinded_signature@,
        ));
        self.blinded_signatures.insert(voter, signatures);
        assert(self@.blinded_signatures =~= before.blinded_signatures.insert(
            voter,
            signatures_view(signatures),
        ));
        assert(self@ =~= before.after_signing(voter, candidate, blinded_signature@));
        Ok(())
    }

    /// The central authority discloses the private half of the ballot key
    /// during `Counting`. The bytes are stored as given.
    pub fn reveal_ballot_key(&mut self, caller: AccountId, private_key: Vec<u8>) -> (r: Result<
        (),
        Error,
    >)
        requires
            old(self).wf(),
        ensures
            final(self).wf(),
            r == old(self)@.reveal_result(caller),
            r is Ok ==> final(self)@ == old(self)@.after_reveal(private_key@),
            r is Err ==> final(self)@ == old(self)@,
    {
        match self.central_authority {
            Some(ca) => {
                if ca != caller {
                    return Err(Error::SenderNotCA);
                }
            },
            None => {
                return Err(Error::InternalError);
            },
        }
        if self.phase != Some(ElectionPhase::Counting) {
            return Err(Error::InvalidPhase);
        }
        let public = match &self.ballot_key {
            Some(key) => copy_bytes(&key.public),
            None => {
                return Err(Error::InternalError);
            },
        };
        let ghost before = self@;
        self.ballot_key = Some(BallotKey { public, private: private_key });
        assert(self@ =~= before.after_reveal(private_key@));
        Ok(())
    }

    pub fn get_ca(&self) -> (r: Option<AccountId>)
        ensures
            r == self@.central_authority,
    {
        self.central_authority
    }

    pub fn get_phase(&self) -> (r: Option<ElectionPhase>)
        ensures
            r == self@.phase,
    {
        self.phase
    }

    /// The voter with id `voter`, if there is one.
    pub fn get_voter(&self, voter: u64) -> (r: Option<Voter>)
        ensures
            r is Some <==> self@.voter_exists(voter),
            r matches Some(v) ==> v@ == self@.voter(voter),
    {
        if voter == 0 || voter > self.voters.len() as u64 {
            None
        } else {
            Some(self.voters[(voter - 1) as usize].duplicate())
        }
    }

    pub fn get_candidate(&self, candidate: AccountId) -> (r: Option<Candidate>)
        ensures
            r is Some <==> self@.candidates.contains_key(candidate),
            r matches Some(c) ==> c@ == self@.candidates[candidate],
    {
        match self.candidates.get(&candidate) {
            Some(c) => Some(c.duplicate()),
            None => None,
        }
    }

    pub fn get_ballot(&self, voter: AccountId) -> (r: Option<Ballot>)
        ensures
            r is Some <==> self@.ballots.contains_key(voter),
            r matches Some(b) ==> b@ == self@.ballots[voter],
    {
        match self.ballots.get(&voter) {
            Some(b) => Some(b.duplicate()),
            None => None,
        }
    }

    pub fn get_ballot_key(&self) -> (r: Option<BallotKey>)
        ensures
            r is Some <==> self@.ballot_key is Some,
            r matches Some(k) ==> self@.ballot_key == Some(k@),
    {
        match &self.ballot_key {
            Some(k) => Some(k.duplicate()),
            None => None,
        }
    }

    /// How many voters are registered; their ids are `1..=voter_count()`.
    pub fn voter_count(&self) -> (r: u64)
        requires
            self.wf(),
        ensures
            r == self@.voter_count(),
    {
        self.voters.len() as u64
    }

    pub fn candidates_count(&self) -> (r: Option<u64>)
        ensures
            r == self@.candidates_count,
    {
        self.candidates_count
    }

    /// The blind signature `candidate` gave `voter`, if any.
    pub fn blinded_signature(&self, voter: u64, candidate: AccountId) -> (r: Option<Vec<u8>>)
        ensures
            r is Some <==> self@.signatures_of(voter).contains_key(candidate),
            r matches Some(s) ==> s@ == self@.signatures_of(voter)[candidate],
    {
        match self.blinded_signatures.get(&voter) {
            Some(signatures) => match signatures.get(&candidate) {
                Some(s) => Some(copy_bytes(s)),
                None => None,
            },
            None => None,
        }
    }

    /// The most recent event, if any.
    pub fn last_event(&self) -> (r: Option<Event>)
        ensures
            r is None <==> self@.events.len() == 0,
            r matches Some(e) ==> e == self@.events.last(),
    {
        if self.events.len() == 0 {
            None
        } else {
            Some(self.events[self.events.len() - 1])
        }
    }
}

} // verus!
