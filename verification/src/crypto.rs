//! Challenges, key validation and signature checks.
//!
//! The relay handles only these directly. Key encapsulation, symmetric encryption
//! and signing happen at the clients.
use crate::outside::{
    dilithium3_accepts, dilithium3_public_key, dilithium3_signature, dilithium3_verify,
    fill_from_os, kyber768_public_key, bad_length_text, DILITHIUM3_PUBLIC_KEY_BYTES,
    DILITHIUM3_SIGNATURE_BYTES, KYBER768_PUBLIC_KEY_BYTES,
};
use crate::text::join;
use vstd::prelude::*;

verus! {

/// Length of an authentication challenge.
pub const CHALLENGE_LEN: usize = 32;

/// Why a key or a signature was turned down.
#[derive(Debug)]
pub enum CryptoError {
    /// Not a Kyber768 public key; the text says why.
    KyberKey(String),
    /// Not a Dilithium3 public key; the text says why.
    DilithiumKey(String),
    /// Not the encoding of a Dilithium3 signature; the text says why.
    DilithiumSignature(String),
    /// The signature is not by that key over that message.
    VerificationFailed,
}

pub enum CryptoErrorView {
    KyberKey(Seq<char>),
    DilithiumKey(Seq<char>),
    DilithiumSignature(Seq<char>),
    VerificationFailed,
}

impl View for CryptoError {
    type V = CryptoErrorView;

    open spec fn view(&self) -> CryptoErrorView {
        match self {
            CryptoError::KyberKey(why) => CryptoErrorView::KyberKey(why@),
            CryptoError::DilithiumKey(why) => CryptoErrorView::DilithiumKey(why@),
            CryptoError::DilithiumSignature(why) => CryptoErrorView::DilithiumSignature(why@),
            CryptoError::VerificationFailed => CryptoErrorView::VerificationFailed,
        }
    }
}

impl CryptoErrorView {
    /// The text that a client is shown.
    pub open spec fn text(self) -> Seq<char> {
        match self {
            CryptoErrorView::KyberKey(why) => "invalid Kyber768 public key: "@ + why,
            CryptoErrorView::DilithiumKey(why) => "invalid Dilithium3 public key: "@ + why,
            CryptoErrorView::DilithiumSignature(why) => "invalid Dilithium3 signature encoding: "@
                + why,
            CryptoErrorView::VerificationFailed => "Dilithium3 signature verification failed"@,
        }
    }
}

impl CryptoError {
    /// The text that a client is shown.
    pub fn message(&self) -> (text: String)
        ensures
            text@ == self@.text(),
    {
        match self {
            CryptoError::KyberKey(why) => join("invalid Kyber768 public key: ", why.as_str()),
            CryptoError::DilithiumKey(why) => join("invalid Dilithium3 public key: ", why.as_str()),
            CryptoError::DilithiumSignature(why) => join(
                "invalid Dilithium3 signature encoding: ",
                why.as_str(),
            ),
            CryptoError::VerificationFailed => "Dilithium3 signature verification failed".to_owned(),
        }
    }
}

/// The view of a verdict.
pub open spec fn verdict_view(verdict: Result<(), CryptoError>) -> Result<(), CryptoErrorView> {
    match verdict {
        Ok(()) => Ok(()),
        Err(e) => Err(e@),
    }
}

/// A fresh challenge of random bytes.
pub fn random_challenge() -> (challenge: Vec<u8>)
    ensures
        challenge@.len() == CHALLENGE_LEN,
{
    let mut challenge: Vec<u8> = vec![0u8; CHALLENGE_LEN];
    fill_from_os(&mut challenge);
    challenge
}

/// Whether some bytes are a Kyber768 public key, and if not, why.
pub open spec fn kyber_key_verdict(bytes: Seq<u8>) -> Result<(), CryptoErrorView> {
    if bytes.len() == KYBER768_PUBLIC_KEY_BYTES {
        Ok(())
    } else {
        Err(
            CryptoErrorView::KyberKey(
                bad_length_text("PublicKey"@, bytes.len(), KYBER768_PUBLIC_KEY_BYTES as nat),
            ),
        )
    }
}

/// Whether some bytes are a Dilithium3 public key, and if not, why.
pub open spec fn dilithium_key_verdict(bytes: Seq<u8>) -> Result<(), CryptoErrorView> {
    if bytes.len() == DILITHIUM3_PUBLIC_KEY_BYTES {
        Ok(())
    } else {
        Err(
            CryptoErrorView::DilithiumKey(
                bad_length_text("PublicKey"@, bytes.len(), DILITHIUM3_PUBLIC_KEY_BYTES as nat),
            ),
        )
    }
}

/// Whether a detached signature over a message is by the holder of a public key, and
/// if not, why: a bad key is found before a bad signature encoding, and that before a
/// signature that does not verify.
pub open spec fn signature_verdict(
    pubkey: Seq<u8>,
    message: Seq<u8>,
    signature: Seq<u8>,
) -> Result<(), CryptoErrorView> {
    if dilithium_key_verdict(pubkey) is Err {
        dilithium_key_verdict(pubkey)
    } else if signature.len() > DILITHIUM3_SIGNATURE_BYTES {
        Err(
            CryptoErrorView::DilithiumSignature(
                bad_length_text(
                    "DetachedSignature"@,
                    signature.len(),
                    DILITHIUM3_SIGNATURE_BYTES as nat,
                ),
            ),
        )
    } else if dilithium3_accepts(pubkey, message, signature) {
        Ok(())
    } else {
        Err(CryptoErrorView::VerificationFailed)
    }
}

/// Checks that some bytes parse as a Kyber768 public key. The parsed key is not used:
/// this turns down malformed keys at registration.
pub fn validate_kyber_pubkey(bytes: &[u8]) -> (verdict: Result<(), CryptoError>)
    ensures
        verdict_view(verdict) == kyber_key_verdict(bytes@),
{
    match kyber768_public_key(bytes) {
        Ok(()) => Ok(()),
        Err(why) => Err(CryptoError::KyberKey(why)),
    }
}

/// Checks that some bytes parse as a Dilithium3 public key.
pub fn validate_dilithium_pubkey(bytes: &[u8]) -> (verdict: Result<(), CryptoError>)
    ensures
        verdict_view(verdict) == dilithium_key_verdict(bytes@),
{
    match dilithium3_public_key(bytes) {
        Ok(()) => Ok(()),
        Err(why) => Err(CryptoError::DilithiumKey(why)),
    }
}

/// Checks a detached Dilithium3 signature over a message.
pub fn verify_dilithium_signature(pubkey: &[u8], message: &[u8], signature: &[u8]) -> (verdict:
    Result<(), CryptoError>)
    ensures
        verdict_view(verdict) == signature_verdict(pubkey@, message@, signature@),
        verdict is Ok ==> signature@.len() == DILITHIUM3_SIGNATURE_BYTES,
{
    validate_dilithium_pubkey(pubkey)?;
    match dilithium3_signature(signature) {
        Ok(()) => {},
        Err(why) => {
            return Err(CryptoError::DilithiumSignature(why));
        },
    }
    acceptance(dilithium3_verify(pubkey, message, signature))
}

/// What is reported for the scheme's answer on a well-formed key and signature.
pub fn acceptance(accepted: bool) -> (verdict: Result<(), CryptoError>)
    ensures
        verdict_view(verdict) == if accepted {
            Ok(())
        } else {
            Err(CryptoErrorView::VerificationFailed)
        },
{
    if accepted {
        Ok(())
    } else {
        Err(CryptoError::VerificationFailed)
    }
}

} // verus!
