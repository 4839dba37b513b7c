//! The mathematical model of an election's stored state, and what each call
//! returns and leaves behind, stated over that model.

use vstd::prelude::*;
use vstd::bytes::spec_u64_to_le_bytes;
use crate::entities::{
    AccountId, BallotKeyView, BallotView, BlindSignature, BlockNumber, CandidateView, Error, Event,
    VoterView,
};
use crate::phase::ElectionPhase;
use crate::rsa::{public_key_accepted, signature_valid};
use crate::signature_set::candidate_ids;

verus! {

/// Everything an election stores.
pub struct ElectionState {
    pub central_authority: Option<AccountId>,
    pub ballot_key: Option<BallotKeyView>,
    pub phase: Option<ElectionPhase>,
    pub candidates: Map<AccountId, CandidateView>,
    pub candidates_count: Option<u64>,
    /// Voter `id` is `voters[id - 1]`: ids are `1..=voters.len()`.
    pub voters: Seq<VoterView>,
    /// Blind signatures by voter id, then by candidate.
    pub blinded_signatures: Map<u64, Map<AccountId, Seq<u8>>>,
    pub ballots: Map<AccountId, BallotView>,
    pub events: Seq<Event>,
}

/// The message a voter's ballot signatures are made over: the little-endian
/// encoding of the voter's account id.
pub open spec fn voter_message(voter: AccountId) -> Seq<u8> {
    spec_u64_to_le_bytes(voter)
}

/// A candidate's record before the candidate has filled it in.
pub open spec fn blank_candidate() -> CandidateView {
    CandidateView { name: Seq::empty(), pubkey: Seq::empty() }
}

/// `records` with a blank record for each of `ids`.
pub open spec fn seeded_candidates(
    records: Map<AccountId, CandidateView>,
    ids: Seq<AccountId>,
) -> Map<AccountId, CandidateView> {
    Map::new(
        |c: AccountId| records.contains_key(c) || ids.contains(c),
        |c: AccountId|
            if ids.contains(c) {
                blank_candidate()
            } else {
                records[c]
            },
    )
}

impl ElectionState {
    /// The invariants every stored state keeps.
    pub open spec fn wf(self) -> bool {
        &&& self.records_wf()
        &&& self.phase is Some
        &&& self.phase->0.rank() < ElectionPhase::Counting.rank() ==> (self.ballot_key matches Some(
            k,
        ) ==> k.private.len() == 0)
    }

    /// Voter ids fit in a `u64`, and a blind signature is kept only for a
    /// registered voter and a known candidate.
    pub open spec fn records_wf(self) -> bool {
        &&& self.voters.len() < u64::MAX
        &&& forall|v: u64| #[trigger]
            self.blinded_signatures.contains_key(v) ==> {
                &&& self.voter_exists(v)
                &&& forall|c: AccountId| #[trigger]
                    self.blinded_signatures[v].contains_key(c) ==> self.candidates.contains_key(c)
            }
    }

    /// The state before genesis: nothing set, nothing stored.
    pub open spec fn empty() -> ElectionState {
        ElectionState {
            central_authority: None,
            ballot_key: None,
            phase: None,
            candidates: Map::empty(),
            candidates_count: None,
            voters: Seq::empty(),
            blinded_signatures: Map::empty(),
            ballots: Map::empty(),
            events: Seq::empty(),
        }
    }

    /// The state after genesis: the election is in `Initialization`, the
    /// authority is set when one is given, the ballot key's public half is
    /// stored with an empty private half, and each listed candidate gets a
    /// blank record.
    pub open spec fn with_genesis(
        self,
        central_authority: Option<AccountId>,
        candidates: Seq<AccountId>,
        ballot_public_key: Seq<u8>,
    ) -> ElectionState {
        ElectionState {
            phase: Some(ElectionPhase::Initialization),
            central_authority: if central_authority is Some {
                central_authority
            } else {
                self.central_authority
            },
            ballot_key: Some(BallotKeyView { public: ballot_public_key, private: Seq::empty() }),
            candidates: seeded_candidates(self.candidates, candidates),
            candidates_count: Some(candidates.len() as u64),
            ..self
        }
    }

    pub open spec fn voter_count(self) -> nat {
        self.voters.len()
    }

    pub open spec fn voter_exists(self, id: u64) -> bool {
        1 <= id <= self.voters.len()
    }

    pub open spec fn voter(self, id: u64) -> VoterView {
        self.voters[id - 1]
    }

    /// The blind signatures stored for one voter, by candidate.
    pub open spec fn signatures_of(self, voter: u64) -> Map<AccountId, Seq<u8>> {
        if self.blinded_signatures.contains_key(voter) {
            self.blinded_signatures[voter]
        } else {
            Map::empty()
        }
    }

    pub open spec fn signature_count(self, voter: u64) -> nat {
        self.signatures_of(voter).len()
    }

    /// Voter `voter` holds one blind signature for each candidate.
    pub open spec fn fully_signed(self, voter: u64) -> bool {
        self.candidates_count matches Some(n) && self.signature_count(voter) == n
    }

    pub open spec fn all_voters_signed(self) -> bool {
        forall|v: u64| 1 <= v <= self.voters.len() ==> #[trigger] self.fully_signed(v)
    }

    /// Whether `caller` may act as the central authority.
    pub open spec fn authorize(self, caller: AccountId) -> Result<(), Error> {
        match self.central_authority {
            None => Err(Error::InternalError),
            Some(ca) => if ca == caller {
                Ok(())
            } else {
                Err(Error::SenderNotCA)
            },
        }
    }

    // ---- moving to the next phase ----

    pub open spec fn change_phase_result(self, caller: AccountId) -> Result<(), Error> {
        if self.authorize(caller) is Err {
            self.authorize(caller)
        } else if self.phase == Some(ElectionPhase::BiasedSigner) && !self.all_voters_signed() {
            Err(Error::InvalidPhaseChange)
        } else {
            Ok(())
        }
    }

    pub open spec fn after_phase_change(self, now: BlockNumber) -> ElectionState {
        let next = self.phase->0.next();
        ElectionState {
            phase: Some(next),
            events: self.events.push(Event::PhaseChanged { when: now, phase: next }),
            ..self
        }
    }

    // ---- registering a voter ----

    pub open spec fn add_voter_result(self, caller: AccountId) -> Result<(), Error> {
        if self.authorize(caller) is Err {
            self.authorize(caller)
        } else if self.phase != Some(ElectionPhase::Registration) {
            Err(Error::InvalidPhase)
        } else {
            Ok(())
        }
    }

    pub open spec fn after_add_voter(self, voter: VoterView) -> ElectionState {
        ElectionState { voters: self.voters.push(voter), ..self }
    }

    // ---- a candidate's own record ----

    pub open spec fn update_candidate_result(self, caller: AccountId, candidate: AccountId) -> Result<
        (),
        Error,
    > {
        if caller == candidate {
            Ok(())
        } else {
            Err(Error::BadSender)
        }
    }

    pub open spec fn after_update_candidate(
        self,
        candidate: AccountId,
        record: CandidateView,
    ) -> ElectionState {
        ElectionState { candidates: self.candidates.insert(candidate, record), ..self }
    }

    // ---- a candidate blind-signs a voter ----

    pub open spec fn biased_signing_result(
        self,
        caller: AccountId,
        candidate: AccountId,
        voter: u64,
        signature: Seq<u8>,
    ) -> Result<(), Error> {
        if caller != candidate {
            Err(Error::BadSender)
        } else if !self.voter_exists(voter) {
            Err(Error::VoterDoesNotExist)
        } else if !self.candidates.contains_key(candidate) {
            Err(Error::RSAStorageNotFound)
        } else if !public_key_accepted(self.candidates[candidate].pubkey) {
            Err(Error::InvalidPublicKey)
        } else if !signature_valid(
            self.candidates[candidate].pubkey,
            signature,
            None,
            self.voter(voter).blinded_pubkey,
        ) {
            Err(Error::RSAInvalidSignature)
        } else {
            Ok(())
        }
    }

    pub open spec fn after_signing(
        self,
        voter: u64,
        candidate: AccountId,
        signature: Seq<u8>,
    ) -> ElectionState {
        ElectionState {
            blinded_signatures: self.blinded_signatures.insert(
                voter,
                self.signatures_of(voter).insert(candidate, signature),
            ),
            ..self
        }
    }

    // ---- casting a ballot ----

    /// One entry of a signature set is a valid signature, by a candidate with a
    /// usable key, over the voter's message.
    pub open spec fn entry_accepted(
        self,
        voter: AccountId,
        entry: (AccountId, BlindSignature),
    ) -> bool {
        &&& self.candidates.contains_key(entry.0)
        &&& public_key_accepted(self.candidates[entry.0].pubkey)
        &&& signature_valid(
            self.candidates[entry.0].pubkey,
            entry.1.signature@,
            Some(entry.1.msg_randomizer),
            voter_message(voter),
        )
    }

    /// The set names each candidate once, as many as were registered, and
    /// every one of its signatures is accepted.
    pub open spec fn signature_set_accepted(
        self,
        voter: AccountId,
        set: Seq<(AccountId, BlindSignature)>,
    ) -> bool {
        &&& self.candidates_count matches Some(n) && set.len() == n
        &&& candidate_ids(set).no_duplicates()
        &&& forall|i: int| 0 <= i < set.len() ==> #[trigger] self.entry_accepted(voter, set[i])
    }

    pub open spec fn vote_result(
        self,
        caller: AccountId,
        set: Seq<(AccountId, BlindSignature)>,
    ) -> Result<(), Error> {
        if self.phase != Some(ElectionPhase::Voting) {
            Err(Error::InvalidPhase)
        } else if self.candidates_count is None {
            Err(Error::MissingCandidateCount)
        } else if !self.signature_set_accepted(caller, set) {
            Err(Error::InvalidBlindSignatures)
        } else {
            Ok(())
        }
    }

    /// The ballot after an accepted vote: the new commitment, and a nonce one
    /// past the previous one, or 1 for a first vote.
    pub open spec fn next_ballot(self, caller: AccountId, commitment: Seq<u8>) -> BallotView {
        BallotView {
            commitment,
            signature: Seq::empty(),
            nonce: if self.ballots.contains_key(caller) {
                (self.ballots[caller].nonce + 1) as u64
            } else {
                1
            },
        }
    }

    pub open spec fn after_vote(self, caller: AccountId, commitment: Seq<u8>) -> ElectionState {
        ElectionState {
            ballots: self.ballots.insert(caller, self.next_ballot(caller, commitment)),
            ..self
        }
    }

    /// A further vote by `caller` would not overflow the ballot's nonce.
    pub open spec fn can_count_vote(self, caller: AccountId) -> bool {
        self.ballots.contains_key(caller) ==> self.ballots[caller].nonce < u64::MAX
    }

    // ---- revealing the ballot key ----

    pub open spec fn reveal_result(self, caller: AccountId) -> Result<(), Error> {
        if self.authorize(caller) is Err {
            self.authorize(caller)
        } else if self.phase != Some(ElectionPhase::Counting) {
            Err(Error::InvalidPhase)
        } else if self.ballot_key is None {
            Err(Error::InternalError)
        } else {
            Ok(())
        }
    }

    pub open spec fn after_reveal(self, private_key: Seq<u8>) -> ElectionState {
        ElectionState {
            ballot_key: Some(BallotKeyView { public: self.ballot_key->0.public, private: private_key }),
            ..self
        }
    }
}

} // verus!
