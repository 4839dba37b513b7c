//! Properties of the election that relate its calls to one another, stated
//! over the model that the calls' contracts use.

use vstd::prelude::*;
use crate::entities::{AccountId, BallotView, BlindSignature, Error};
use crate::phase::ElectionPhase;
use crate::rsa::{public_key_accepted, signature_valid};
use crate::signature_set::candidate_ids;
use crate::state::ElectionState;

verus! {

/// Anyone but the central authority who asks for the next phase is refused with
/// `SenderNotCA` (and a refused call leaves the state as it was).
pub proof fn lemma_only_authority_changes_phase(
    s: ElectionState,
    ca: AccountId,
    caller: AccountId,
)
    requires
        s.central_authority == Some(ca),
        caller != ca,
    ensures
        s.change_phase_result(caller) == Err::<(), Error>(Error::SenderNotCA),
{
}

/// The authority moves the election out of `BiasedSigner` exactly when every
/// voter id in `1..=voter_count` holds as many blind signatures as there are
/// candidates (`all_voters_signed`); otherwise the call fails with
/// `InvalidPhaseChange` and the election stays in `BiasedSigner`.
pub proof fn lemma_leaving_signing_needs_every_signature(
    s: ElectionState,
    caller: AccountId,
    now: u64,
)
    requires
        s.central_authority == Some(caller),
        s.phase == Some(ElectionPhase::BiasedSigner),
    ensures
        s.change_phase_result(caller) is Ok <==> s.all_voters_signed(),
        s.all_voters_signed() <==> forall|v: u64|
            1 <= v <= s.voter_count() ==> #[trigger] s.fully_signed(v),
        s.change_phase_result(caller) is Ok ==> s.after_phase_change(now).phase == Some(
            ElectionPhase::Voting,
        ),
        s.change_phase_result(caller) is Err ==> s.change_phase_result(caller) == Err::<(), Error>(
            Error::InvalidPhaseChange,
        ),
{
}

/// During `Voting`, a signature set with more or fewer entries than there are
/// candidates is refused with `InvalidBlindSignatures`, and so is one that names
/// a candidate twice, whatever its length.
pub proof fn lemma_vote_needs_each_candidate_once(
    s: ElectionState,
    caller: AccountId,
    set: Seq<(AccountId, BlindSignature)>,
)
    requires
        s.phase == Some(ElectionPhase::Voting),
        s.candidates_count is Some,
    ensures
        set.len() != s.candidates_count->0 ==> s.vote_result(caller, set) == Err::<(), Error>(
            Error::InvalidBlindSignatures,
        ),
        (exists|i: int, j: int|
            0 <= i < j < set.len() && #[trigger] set[i].0 == #[trigger] set[j].0) ==> s.vote_result(
            caller,
            set,
        ) == Err::<(), Error>(Error::InvalidBlindSignatures),
{
    if exists|i: int, j: int| 0 <= i < j < set.len() && #[trigger] set[i].0 == #[trigger] set[j].0 {
        let (i, j) = choose|i: int, j: int|
            0 <= i < j < set.len() && #[trigger] set[i].0 == #[trigger] set[j].0;
        assert(candidate_ids(set)[i] == candidate_ids(set)[j]);
    }
}

/// Voting twice with accepted signature sets leaves one ballot for the voter,
/// holding the second commitment, with nonce 2: the first vote does not change
/// whether the second is accepted, and each accepted vote adds one to the nonce.
pub proof fn lemma_revote_replaces_ballot(
    s: ElectionState,
    caller: AccountId,
    first_set: Seq<(AccountId, BlindSignature)>,
    second_set: Seq<(AccountId, BlindSignature)>,
    first: Seq<u8>,
    second: Seq<u8>,
)
    requires
        s.vote_result(caller, first_set) is Ok,
        s.vote_result(caller, second_set) is Ok,
        !s.ballots.contains_key(caller),
    ensures
        s.after_vote(caller, first).ballots[caller].nonce == 1,
        s.after_vote(caller, first).can_count_vote(caller),
        s.after_vote(caller, first).vote_result(caller, second_set) is Ok,
        s.after_vote(caller, first).after_vote(caller, second).ballots[caller] == (BallotView {
            commitment: second,
            signature: Seq::empty(),
            nonce: 2,
        }),
{
    let s1 = s.after_vote(caller, first);
    assert forall|i: int| 0 <= i < second_set.len() implies #[trigger] s1.entry_accepted(
        caller,
        second_set[i],
    ) == s.entry_accepted(caller, second_set[i]) by {}
    assert(s1.signature_set_accepted(caller, second_set) == s.signature_set_accepted(
        caller,
        second_set,
    ));
}

/// A blind signature that does not verify over the voter's blinded key under the
/// candidate's key is refused with `RSAInvalidSignature` (and nothing is stored).
pub proof fn lemma_invalid_blind_signature_refused(
    s: ElectionState,
    candidate: AccountId,
    voter: u64,
    signature: Seq<u8>,
)
    requires
        s.voter_exists(voter),
        s.candidates.contains_key(candidate),
        public_key_accepted(s.candidates[candidate].pubkey),
        !signature_valid(
            s.candidates[candidate].pubkey,
            signature,
            None,
            s.voter(voter).blinded_pubkey,
        ),
    ensures
        s.biased_signing_result(candidate, candidate, voter, signature) == Err::<(), Error>(
            Error::RSAInvalidSignature,
        ),
{
}

/// The authority can reveal the ballot key only during `Counting`: before or
/// after it the call fails with `InvalidPhase`; during it the private half
/// becomes exactly the bytes given and the public half stays.
pub proof fn lemma_key_revealed_only_while_counting(
    s: ElectionState,
    caller: AccountId,
    private_key: Seq<u8>,
)
    requires
        s.central_authority == Some(caller),
        s.ballot_key is Some,
    ensures
        s.phase != Some(ElectionPhase::Counting) ==> s.reveal_result(caller) == Err::<(), Error>(
            Error::InvalidPhase,
        ),
        s.phase == Some(ElectionPhase::Counting) ==> {
            &&& s.reveal_result(caller) is Ok
            &&& s.after_reveal(private_key).ballot_key->0.private == private_key
            &&& s.after_reveal(private_key).ballot_key->0.public == s.ballot_key->0.public
        },
{
}

/// In every well-formed state the private half of the ballot key is empty until
/// the election reaches `Counting`.
pub proof fn lemma_private_key_sealed_before_counting(s: ElectionState)
    requires
        s.wf(),
        s.phase->0.rank() < ElectionPhase::Counting.rank(),
        s.ballot_key is Some,
    ensures
        s.ballot_key->0.private.len() == 0,
{
}

} // verus!
