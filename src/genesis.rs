//! Starting an election from its genesis configuration.

use vstd::prelude::*;
use crate::entities::AccountId;
use crate::pallet::Pallet;
use crate::state::ElectionState;

verus! {

/// What an election starts from: its central authority, its candidates and
/// the public half of the key that seals ballots.
pub struct GenesisConfig {
    pub central_authority: Option<AccountId>,
    pub candidates: Vec<AccountId>,
    pub ballot_public_key: Vec<u8>,
}

/// Why a genesis configuration cannot start an election.
#[derive(Clone, Copy, Debug, PartialEq, Eq, Structural)]
pub enum GenesisError {
    /// The ballot public key is empty.
    EmptyBallotKey,
    /// Fewer than two candidates are listed.
    TooFewCandidates,
}

impl Default for GenesisConfig {
    fn default() -> (r: GenesisConfig)
        ensures
            r.central_authority is None,
            r.candidates@.len() == 0,
            r.ballot_public_key@.len() == 0,
    {
        GenesisConfig { central_authority: None, candidates: Vec::new(), ballot_public_key: Vec::new() }
    }
}

impl GenesisConfig {
    /// Whether this configuration can start an election, checked in this order.
    pub open spec fn check(&self) -> Result<(), GenesisError> {
        if self.ballot_public_key@.len() == 0 {
            Err(GenesisError::EmptyBallotKey)
        } else if self.candidates@.len() < 2 {
            Err(GenesisError::TooFewCandidates)
        } else {
            Ok(())
        }
    }

    /// The state this configuration leaves when written over `before`.
    pub open spec fn applied_to(&self, before: ElectionState) -> ElectionState {
        before.with_genesis(self.central_authority, self.candidates@, self.ballot_public_key@)
    }

    fn validate(&self) -> (r: Result<(), GenesisError>)
        ensures
            r == self.check(),
    {
        if self.ballot_public_key.len() == 0 {
            Err(GenesisError::EmptyBallotKey)
        } else if self.candidates.len() < 2 {
            Err(GenesisError::TooFewCandidates)
        } else {
            Ok(())
        }
    }

    /// Writes this configuration into existing storage: the phase becomes
    /// `Initialization`, the authority is set when one is given, the ballot
    /// key is stored with an empty private half, and every listed candidate gets
    /// a blank record. A rejected configuration writes nothing.
    pub fn assimilate_storage(&self, storage: &mut Pallet) -> (r: Result<(), GenesisError>)
        requires
            old(storage).wf(),
        ensures
            final(storage).wf(),
            r == self.check(),
            r is Ok ==> final(storage)@ == self.applied_to(old(storage)@),
            r is Err ==> final(storage)@ == old(storage)@,
    {
        let checked = self.validate();
        if checked.is_err() {
            return checked;
        }
        storage.apply_genesis(self.central_authority, &self.candidates, &self.ballot_public_key);
        Ok(())
    }

    /// A new election started from this configuration.
    pub fn build_storage(&self) -> (r: Result<Pallet, GenesisError>)
        ensures
            r is Ok <==> self.check() is Ok,
            r matches Err(e) ==> self.check() == Err::<(), GenesisError>(e),
            r matches Ok(p) ==> p.wf() && p@ == self.applied_to(ElectionState::empty()),
    {
        match self.validate() {
            Err(e) => Err(e),
            Ok(()) => {
                let mut storage = Pallet::empty();
                storage.apply_genesis(
                    self.central_authority,
                    &self.candidates,
                    &self.ballot_public_key,
                );
                Ok(storage)
            },
        }
    }
}

} // verus!
