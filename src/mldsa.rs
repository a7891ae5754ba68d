//! ML-DSA-65 key generation, signing and verification into caller buffers.

use vstd::prelude::*;
use libcrux_ml_dsa::ml_dsa_65::{self, MLDSA65Signature, MLDSA65SigningKey, MLDSA65VerificationKey};
use rand::RngCore;

verus! {

/// Length of an ML-DSA-65 signing key, in bytes.
pub const SIGNING_KEY_LEN: usize = 4032;

/// Length of an ML-DSA-65 verification key, in bytes.
pub const VERIFICATION_KEY_LEN: usize = 1952;

/// Length of an ML-DSA-65 signature, in bytes.
pub const SIGNATURE_LEN: usize = 3309;

/// Length of the randomness that key generation and signing take, in bytes.
pub const RANDOMNESS_LEN: usize = 32;

/// Error cases
#[derive(Clone, Copy, Debug, PartialEq, Eq, Structural)]
pub enum Error {
    InvalidSigningKey,
    InvalidVerificationKey,
    Signing,
    InvalidSignature,
}

/// The signing and verification keys that ML-DSA-65 derives from a seed.
pub uninterp spec fn ml_dsa_65_key_pair(seed: Seq<u8>) -> (Seq<u8>, Seq<u8>);

/// The ML-DSA-65 signature (empty context) of a message under a signing
/// key with the given randomness; `None` where signing fails.
pub uninterp spec fn ml_dsa_65_signature(signing_key: Seq<u8>, message: Seq<u8>, randomness: Seq<u8>) -> Option<Seq<u8>>;

/// Whether ML-DSA-65 accepts a signature (empty context) of a message under
/// a verification key.
pub uninterp spec fn ml_dsa_65_accepts(verification_key: Seq<u8>, message: Seq<u8>, signature: Seq<u8>) -> bool;

/// Relies on rand's thread generator (`rand::rng`, `RngCore::fill_bytes`):
/// 32 bytes, of any value.
#[verifier::external_body]
fn random_bytes() -> (r: Vec<u8>)
    ensures
        r@.len() == RANDOMNESS_LEN,
{
    let mut bytes = [0u8; 32];
    rand::rng().fill_bytes(&mut bytes);
    bytes.to_vec()
}

/// Relies on `ml_dsa_65::generate_key_pair`: keys determined by the seed,
/// of 4032 and 1952 bytes.
#[verifier::external_body]
fn generate_key_pair(seed: &[u8]) -> (r: (Vec<u8>, Vec<u8>))
    requires
        seed@.len() == RANDOMNESS_LEN,
    ensures
        (r.0@, r.1@) == ml_dsa_65_key_pair(seed@),
        r.0@.len() == SIGNING_KEY_LEN,
        r.1@.len() == VERIFICATION_KEY_LEN,
{
    let randomness: [u8; 32] = seed.try_into().unwrap();
    let pair = ml_dsa_65::generate_key_pair(randomness);
    (pair.signing_key.as_slice().to_vec(), pair.verification_key.as_slice().to_vec())
}

/// Relies on `ml_dsa_65::sign` with an empty context: a result determined
/// by key, message and randomness; a signature of 3309 bytes.
#[verifier::external_body]
fn sign_message(signing_key: &[u8], message: &[u8], randomness: &[u8]) -> (r: Option<Vec<u8>>)
    requires
        signing_key@.len() == SIGNING_KEY_LEN,
        randomness@.len() == RANDOMNESS_LEN,
    ensures
        match r {
            Some(s) => ml_dsa_65_signature(signing_key@, message@, randomness@) == Some(s@),
            None => ml_dsa_65_signature(signing_key@, message@, randomness@) is None,
        },
        r is Some ==> r->Some_0@.len() == SIGNATURE_LEN,
{
    let key: [u8; 4032] = signing_key.try_into().unwrap();
    let randomness: [u8; 32] = randomness.try_into().unwrap();
    match ml_dsa_65::sign(&MLDSA65SigningKey::new(key), message, &[], randomness) {
        Ok(sig) => Some(sig.as_slice().to_vec()),
        Err(_) => None,
    }
}

/// Relies on `ml_dsa_65::verify` with an empty context: whether it returns
/// `Ok`, determined by key, message and signature.
#[verifier::external_body]
fn verify_message(verification_key: &[u8], message: &[u8], signature: &[u8]) -> (r: bool)
    requires
        verification_key@.len() == VERIFICATION_KEY_LEN,
        signature@.len() == SIGNATURE_LEN,
    ensures
        r == ml_dsa_65_accepts(verification_key@, message@, signature@),
{
    let key: [u8; 1952] = verification_key.try_into().unwrap();
    let sig: [u8; 3309] = signature.try_into().unwrap();
    ml_dsa_65::verify(&MLDSA65VerificationKey::new(key), message, &[], &MLDSA65Signature::new(sig)).is_ok()
}

/// Copies `src` into `dst`, which has the same length.
fn copy_bytes(dst: &mut [u8], src: &[u8])
    requires
        old(dst)@.len() == src@.len(),
    ensures
        final(dst)@ == src@,
{
    let n = src.len();
    let mut i: usize = 0;
    while i < n
        invariant
            n == src@.len(),
            dst@.len() == n,
            i <= n,
            forall|j: int| 0 <= j < i ==> dst@[j] == src@[j],
        decreases n - i,
    {
        dst[i] = src[i];
        i = i + 1;
    }
    assert(dst@ =~= src@);
}

/// Generate a signature key pair.
///
/// * signing_key length = 4032
/// * verification_key length = 1952
pub fn key_gen(signing_key: &mut [u8], verification_key: &mut [u8])
    requires
        old(signing_key)@.len() == SIGNING_KEY_LEN,
        old(verification_key)@.len() == VERIFICATION_KEY_LEN,
    ensures
        exists|seed: Seq<u8>|
            seed.len() == RANDOMNESS_LEN && #[trigger] ml_dsa_65_key_pair(seed) == (
                final(signing_key)@,
                final(verification_key)@,
            ),
{
    let seed = random_bytes();
    let (sk, vk) = generate_key_pair(seed.as_slice());
    copy_bytes(signing_key, sk.as_slice());
    copy_bytes(verification_key, vk.as_slice());
}

/// Signs `payload` with `signing_key`, using `randomness`: the signature,
/// `InvalidSigningKey` for a key of the wrong length, `Signing` where
/// ML-DSA-65 gives none.
pub fn sign_with_randomness(payload: &[u8], signing_key: &[u8], randomness: &[u8]) -> (r: Result<Vec<u8>, Error>)
    requires
        randomness@.len() == RANDOMNESS_LEN,
    ensures
        signing_key@.len() != SIGNING_KEY_LEN ==> r == Err::<Vec<u8>, Error>(Error::InvalidSigningKey),
        signing_key@.len() == SIGNING_KEY_LEN ==> match ml_dsa_65_signature(signing_key@, payload@, randomness@) {
            Some(s) => r is Ok && r->Ok_0@ == s && s.len() == SIGNATURE_LEN,
            None => r == Err::<Vec<u8>, Error>(Error::Signing),
        },
{
    if signing_key.len() != SIGNING_KEY_LEN {
        return Err(Error::InvalidSigningKey);
    }
    match sign_message(signing_key, payload, randomness) {
        Some(sig) => Ok(sig),
        None => Err(Error::Signing),
    }
}

/// Sign `payload` with `signing_key`.
/// * signing_key_len = 4032
/// * signature length = 3309
pub fn sign(payload: &[u8], signing_key: &[u8], signature: &mut [u8]) -> (r: bool)
    requires
        old(signature)@.len() == SIGNATURE_LEN,
    ensures
        signing_key@.len() != SIGNING_KEY_LEN ==> !r,
        r ==> exists|randomness: Seq<u8>|
            randomness.len() == RANDOMNESS_LEN && #[trigger] ml_dsa_65_signature(signing_key@, payload@, randomness)
                == Some(final(signature)@),
        !r ==> final(signature)@ == old(signature)@,
        !r && signing_key@.len() == SIGNING_KEY_LEN ==> exists|randomness: Seq<u8>|
            randomness.len() == RANDOMNESS_LEN && #[trigger] ml_dsa_65_signature(signing_key@, payload@, randomness)
                is None,
{
    let randomness = random_bytes();
    match sign_with_randomness(payload, signing_key, randomness.as_slice()) {
        Ok(sig) => {
            copy_bytes(signature, sig.as_slice());
            true
        },
        Err(_) => false,
    }
}

/// Verify the `signature` on the `payload`, using the `verification_key`.
pub fn verify(payload: &[u8], signature: &[u8], verification_key: &[u8]) -> (r: bool)
    ensures
        r == (verification_key@.len() == VERIFICATION_KEY_LEN && signature@.len() == SIGNATURE_LEN
            && ml_dsa_65_accepts(verification_key@, payload@, signature@)),
{
    if verification_key.len() != VERIFICATION_KEY_LEN || signature.len() != SIGNATURE_LEN {
        return false;
    }
    verify_message(verification_key, payload, signature)
}

} // verus!
