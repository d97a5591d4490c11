use pq_chat_backend::crypto::{
    acceptance, random_challenge, validate_dilithium_pubkey, validate_kyber_pubkey,
    verify_dilithium_signature, CryptoError, CHALLENGE_LEN,
};
use pqcrypto_dilithium::dilithium3;
use pqcrypto_kyber::kyber768;
use pqcrypto_traits::kem::PublicKey as _;
use pqcrypto_traits::sign::{DetachedSignature as _, PublicKey as _, SecretKey as _};

#[test]
fn dilithium_round_trip() {
    let (pk, sk) = dilithium3::keypair();
    let msg = b"challenge bytes";
    let sig = dilithium3::detached_sign(msg, &sk);

    verify_dilithium_signature(pk.as_bytes(), msg, sig.as_bytes())
        .expect("valid signature must verify");

    // A tampered message must fail.
    let bad = b"different bytes";
    assert!(verify_dilithium_signature(pk.as_bytes(), bad, sig.as_bytes()).is_err());

    // A tampered signature must fail.
    let mut bad_sig = sig.as_bytes().to_vec();
    bad_sig[0] ^= 0xFF;
    assert!(verify_dilithium_signature(pk.as_bytes(), msg, &bad_sig).is_err());

    let _ = sk.as_bytes();
}

#[test]
fn kyber_pubkey_validation() {
    let (pk, _sk) = kyber768::keypair();
    validate_kyber_pubkey(pk.as_bytes()).expect("real pubkey is valid");
    assert!(validate_kyber_pubkey(b"too short").is_err());
}

#[test]
fn challenges_are_random() {
    assert_eq!(CHALLENGE_LEN, 32);
    let first = random_challenge();
    let second = random_challenge();
    assert_eq!((first.len(), second.len()), (32, 32));
    assert_ne!(first, second);
}

#[test]
fn key_lengths_are_checked() {
    assert!(validate_kyber_pubkey(&[0u8; 1184]).is_ok());
    assert!(validate_dilithium_pubkey(&[0u8; 1952]).is_ok());
    for bytes in [&[0u8; 1183][..], &[0u8; 1185][..], &[][..]] {
        assert!(validate_kyber_pubkey(bytes).is_err());
    }
    assert_eq!(
        validate_dilithium_pubkey(&[0u8; 1951]).expect_err("short").message(),
        "invalid Dilithium3 public key: BadLength { name: \"PublicKey\", actual: 1951, expected: 1952 }"
    );
}

#[test]
fn first_fault_of_a_signature_is_reported() {
    let (pk, sk) = dilithium3::keypair();
    let sig = dilithium3::detached_sign(b"m", &sk);
    let long = vec![0u8; 3310];
    assert!(matches!(
        verify_dilithium_signature(b"short", b"m", &long),
        Err(CryptoError::DilithiumKey(_))
    ));
    assert!(matches!(
        verify_dilithium_signature(pk.as_bytes(), b"m", &long),
        Err(CryptoError::DilithiumSignature(_))
    ));
    let failed = verify_dilithium_signature(pk.as_bytes(), b"n", sig.as_bytes());
    assert_eq!(
        failed.expect_err("another message").message(),
        "Dilithium3 signature verification failed"
    );
    assert!(acceptance(true).is_ok());
    assert!(matches!(acceptance(false), Err(CryptoError::VerificationFailed)));
}
