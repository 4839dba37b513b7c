//! RSA blind-signature verification, through the `blind_rsa_signatures` crate.
//!
//! What the crate computes is named here, not restated: `public_key_accepted`
//! and `signature_valid` are functions of their arguments alone (parsing a key
//! and checking an RSASSA-PSS signature use no randomness), and the wrappers
//! below tie each call to them.

use vstd::prelude::*;
use blind_rsa_signatures::{Error as RsaError, MessageRandomizer, Options, PublicKey, Signature};

verus! {

#[verifier::external_type_specification]
#[verifier::external_body]
pub struct ExPublicKey(blind_rsa_signatures::PublicKey);

#[verifier::external_type_specification]
#[verifier::external_body]
pub struct ExRsaError(RsaError);

/// Whether `PublicKey::from_der` accepts these bytes as an RSA public key.
pub uninterp spec fn public_key_accepted(der: Seq<u8>) -> bool;

/// Whether `PublicKey::verify`, under the key read from `key_der` and with the
/// crate's default options, accepts `signature` for `message` prefixed by the
/// optional randomizer.
pub uninterp spec fn signature_valid(
    key_der: Seq<u8>,
    signature: Seq<u8>,
    randomizer: Option<[u8; 32]>,
    message: Seq<u8>,
) -> bool;

/// An RSA public key together with the DER bytes it was read from. Only
/// `CandidateKey::from_der` makes one, so the two always belong together.
pub struct CandidateKey {
    der: Vec<u8>,
    key: PublicKey,
}

impl View for CandidateKey {
    type V = Seq<u8>;

    closed spec fn view(&self) -> Seq<u8> {
        self.der@
    }
}

impl CandidateKey {
    /// Relies on `blind_rsa_signatures::PublicKey::from_der`: it succeeds exactly
    /// on the byte strings that it accepts as a public key.
    #[verifier::external_body]
    pub fn from_der(der: &Vec<u8>) -> (r: Result<CandidateKey, RsaError>)
        ensures
            r is Ok <==> public_key_accepted(der@),
            r matches Ok(k) ==> k@ == der@,
    {
        match PublicKey::from_der(der.as_slice()) {
            Ok(key) => Ok(CandidateKey { der: der.clone(), key }),
            Err(e) => Err(e),
        }
    }

    /// Relies on `blind_rsa_signatures::PublicKey::verify` with
    /// `Options::default()`: it succeeds exactly when the signature is valid.
    #[verifier::external_body]
    pub fn verify(&self, signature: &Vec<u8>, randomizer: Option<[u8; 32]>, message: &Vec<u8>)
        -> (r: Result<(), RsaError>)
        ensures
            r is Ok <==> signature_valid(self@, signature@, randomizer, message@),
    {
        let signature = Signature::new(signature.clone());
        let randomizer = randomizer.map(MessageRandomizer::new);
        self.key.verify(&signature, randomizer, message.as_slice(), &Options::default())
    }
}

} // verus!
