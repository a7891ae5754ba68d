use idpaste::mldsa::sign_with_randomness;
use idpaste::{key_gen, sign, verify, Error};

#[test]
fn self_test() {
    let (mut signing_key, mut verification_key) = ([0u8; 4032], [0u8; 1952]);
    let mut signature = [0u8; 3309];
    key_gen(&mut signing_key, &mut verification_key);
    assert!(sign(b"hello world", &signing_key, &mut signature));
    assert!(verify(b"hello world", &signature, &verification_key));
}

#[test]
fn sign_rejects_short_key() {
    let mut signature = [7u8; 3309];
    assert!(!sign(b"hello world", &[0u8; 10], &mut signature));
    assert!(signature.iter().all(|b| *b == 7));
    assert_eq!(
        sign_with_randomness(b"hello world", &[0u8; 10], &[0u8; 32]),
        Err(Error::InvalidSigningKey)
    );
}

#[test]
fn signing_is_determined_by_randomness() {
    let (mut signing_key, mut verification_key) = ([0u8; 4032], [0u8; 1952]);
    key_gen(&mut signing_key, &mut verification_key);
    let a = sign_with_randomness(b"payload", &signing_key, &[3u8; 32]).unwrap();
    let b = sign_with_randomness(b"payload", &signing_key, &[3u8; 32]).unwrap();
    assert_eq!(a.len(), 3309);
    assert_eq!(a, b);
    assert!(verify(b"payload", &a, &verification_key));
}

#[test]
fn verify_rejects_bad_input() {
    let (mut signing_key, mut verification_key) = ([0u8; 4032], [0u8; 1952]);
    let mut signature = [0u8; 3309];
    key_gen(&mut signing_key, &mut verification_key);
    assert!(sign(b"hello world", &signing_key, &mut signature));
    assert!(!verify(b"hello there", &signature, &verification_key));
    assert!(!verify(b"hello world", &signature[..3308], &verification_key));
    assert!(!verify(b"hello world", &signature, &verification_key[..100]));
    let mut tampered = signature;
    tampered[5] ^= 1;
    assert!(!verify(b"hello world", &tampered, &verification_key));
}
