//! The records an election keeps, and their mathematical views.

use vstd::prelude::*;
use crate::phase::ElectionPhase;

verus! {

/// The identity of an account: the central authority, a candidate or a voter.
pub type AccountId = u64;

/// A block height, used to time-stamp events.
pub type BlockNumber = u64;

/// A registered voter.
#[derive(Clone, Debug, PartialEq, Eq)]
pub struct Voter {
    pub blinded_pubkey: Vec<u8>,
    pub is_eligible: bool,
    /// Signed by the central authority after it checked eligibility.
    pub signed_blinded_pubkey: Vec<u8>,
    pub personal_data_hash: Vec<u8>,
}

pub struct VoterView {
    pub blinded_pubkey: Seq<u8>,
    pub is_eligible: bool,
    pub signed_blinded_pubkey: Seq<u8>,
    pub personal_data_hash: Seq<u8>,
}

impl View for Voter {
    type V = VoterView;

    open spec fn view(&self) -> VoterView {
        VoterView {
            blinded_pubkey: self.blinded_pubkey@,
            is_eligible: self.is_eligible,
            signed_blinded_pubkey: self.signed_blinded_pubkey@,
            personal_data_hash: self.personal_data_hash@,
        }
    }
}

impl Voter {
    /// A copy of the record.
    pub fn duplicate(&self) -> (r: Voter)
        ensures
            r@ == self@,
    {
        Voter {
            blinded_pubkey: copy_bytes(&self.blinded_pubkey),
            is_eligible: self.is_eligible,
            signed_blinded_pubkey: copy_bytes(&self.signed_blinded_pubkey),
            personal_data_hash: copy_bytes(&self.personal_data_hash),
        }
    }
}

/// A candidate: a display name and an RSA public key in DER.
#[derive(Clone, Debug, PartialEq, Eq)]
pub struct Candidate {
    pub name: String,
    pub pubkey: Vec<u8>,
}

pub struct CandidateView {
    pub name: Seq<char>,
    pub pubkey: Seq<u8>,
}

impl View for Candidate {
    type V = CandidateView;

    open spec fn view(&self) -> CandidateView {
        CandidateView { name: self.name@, pubkey: self.pubkey@ }
    }
}

impl Candidate {
    /// A copy of the record.
    pub fn duplicate(&self) -> (r: Candidate)
        ensures
            r@ == self@,
    {
        Candidate { name: self.name.clone(), pubkey: copy_bytes(&self.pubkey) }
    }
}

/// A voter's ballot: the sealed choice and how many times it was cast.
#[derive(Clone, Debug, PartialEq, Eq)]
pub struct Ballot {
    pub commitment: Vec<u8>,
    pub signature: Vec<u8>,
    pub nonce: u64,
}

pub struct BallotView {
    pub commitment: Seq<u8>,
    pub signature: Seq<u8>,
    pub nonce: u64,
}

impl View for Ballot {
    type V = BallotView;

    open spec fn view(&self) -> BallotView {
        BallotView { commitment: self.commitment@, signature: self.signature@, nonce: self.nonce }
    }
}

impl Ballot {
    /// A copy of the record.
    pub fn duplicate(&self) -> (r: Ballot)
        ensures
            r@ == self@,
    {
        Ballot {
            commitment: copy_bytes(&self.commitment),
            signature: copy_bytes(&self.signature),
            nonce: self.nonce,
        }
    }
}

/// A candidate's signature over a voter's identity, with the randomizer that
/// was prefixed to the message before it was signed.
#[derive(Clone, Debug, PartialEq, Eq)]
pub struct BlindSignature {
    pub signature: Vec<u8>,
    pub msg_randomizer: [u8; 32],
}

/// The key pair that seals ballots; the private half stays empty until it is
/// revealed.
#[derive(Clone, Debug, PartialEq, Eq)]
pub struct BallotKey {
    pub public: Vec<u8>,
    pub private: Vec<u8>,
}

pub struct BallotKeyView {
    pub public: Seq<u8>,
    pub private: Seq<u8>,
}

impl View for BallotKey {
    type V = BallotKeyView;

    open spec fn view(&self) -> BallotKeyView {
        BallotKeyView { public: self.public@, private: self.private@ }
    }
}

impl BallotKey {
    /// A copy of the record.
    pub fn duplicate(&self) -> (r: BallotKey)
        ensures
            r@ == self@,
    {
        BallotKey { public: copy_bytes(&self.public), private: copy_bytes(&self.private) }
    }
}

/// What the election records for its observers.
#[derive(Clone, Copy, Debug, PartialEq, Eq, Structural)]
pub enum Event {
    /// The election moved to `phase` at block `when`.
    PhaseChanged { when: BlockNumber, phase: ElectionPhase },
}

/// Why a call was refused. A refused call changes nothing.
#[derive(Clone, Copy, Debug, PartialEq, Eq, Structural)]
pub enum Error {
    /// The election is misconfigured: no central authority, or no ballot key.
    InternalError,
    /// Only the central authority may make this call.
    SenderNotCA,
    /// Voter already exists.
    VoterAlreadyExists,
    /// No voter has this id.
    VoterDoesNotExist,
    /// Some voter still lacks a blind signature from some candidate.
    InvalidPhaseChange,
    /// The call is not allowed in the current phase.
    InvalidPhase,
    /// The caller is not the candidate named in the call.
    BadSender,
    /// The number of candidates was never recorded.
    MissingCandidateCount,
    /// Ballot already exists.
    BallotAlreadyExists,
    /// The signature set is incomplete, repeats a candidate or holds a bad signature.
    InvalidBlindSignatures,
    /// Ballot does not exist.
    BallotNotFound,
    /// The candidate has no stored record.
    RSAStorageNotFound,
    /// The candidate's stored key could not be used.
    RSAError,
    /// The signature does not verify under the candidate's key.
    RSAInvalidSignature,
    /// The candidate's stored key is not an acceptable RSA public key.
    InvalidPublicKey,
}

/// A copy of a byte string.
pub(crate) fn copy_bytes(b: &Vec<u8>) -> (r: Vec<u8>)
    ensures
        r@ == b@,
{
    let r = b.clone();
    assert(r@ =~= b@);
    r
}

} // verus!
