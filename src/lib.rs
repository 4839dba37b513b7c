//! An anonymous election run as a phase state machine: a central authority
//! registers voters, candidates blind-sign each voter's blinded key, voters cast
//! commitment ballots backed by a blind signature from every candidate, and the
//! authority finally reveals the ballot key.

pub mod entities;
pub mod genesis;
pub mod laws;
pub mod pallet;
pub mod phase;
pub mod rsa;
pub mod signature_set;
pub mod state;

pub use entities::{
    AccountId, Ballot, BallotKey, BlindSignature, BlockNumber, Candidate, Error, Event, Voter,
};
pub use genesis::{GenesisConfig, GenesisError};
pub use pallet::Pallet;
pub use phase::ElectionPhase;
