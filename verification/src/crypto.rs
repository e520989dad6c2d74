//! Trusted boundary to the cryptographic collaborators.
//!
//! The shared secret is drawn once per encryption exchange and the
//! asymmetric encryption of secret and verify token is delegated; everything
//! decided on their results is verified elsewhere against the contracts
//! stated here.

use vstd::prelude::*;

verus! {

/// Relies on rand::thread_rng and rand::Rng::fill: draws a fresh 16-byte
/// shared secret.  The bytes are random, so only the length is promised.
#[verifier::external_body]
pub(crate) fn fresh_shared_secret() -> (r: Vec<u8>)
    ensures
        r@.len() == 16,
{
    let mut shared = [0u8; 16];
    rand::Rng::fill(&mut rand::thread_rng(), &mut shared[..]);
    shared.to_vec()
}

/// Relies on rsa_public_encrypt_pkcs1::encrypt: PKCS#1 v1.5 encryption of
/// `message` under the DER-encoded RSA public key `der_pubkey`.  The padding
/// is drawn at random and the error cases depend on the key bytes, so
/// nothing is promised of the outcome; callers handle both.
///
/// The call sizes its buffers from the key's modulus: on a key whose
/// modulus has no room for the message plus the eleven bytes of PKCS#1
/// framing, or whose exponent is negative, it does not return.  The
/// precondition keeps those keys out; callers check it with
/// [`crate::der::rsa_key_accepts`] before calling.
#[verifier::external_body]
pub(crate) fn rsa_encrypt(der_pubkey: &Vec<u8>, message: &Vec<u8>) -> Result<Vec<u8>, String>
    requires
        crate::der::rsa_key_fits(der_pubkey@, message@.len() as int),
{
    rsa_public_encrypt_pkcs1::encrypt(der_pubkey.as_slice(), message.as_slice())
}

} // verus!
