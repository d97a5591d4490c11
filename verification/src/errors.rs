//! Why a request is refused.
use crate::crypto::{CryptoError, CryptoErrorView};
use crate::protocol::Epoch;
use crate::text::{decimal, decimal_text, join};
use vstd::prelude::*;

verus! {

/// A protocol or authentication violation.
#[derive(Debug)]
pub enum DispatchError {
    NotAuthenticated,
    KemKeyNotBase64,
    SigKeyNotBase64,
    Crypto(CryptoError),
    UnknownUser,
    NoPendingAuth,
    SignatureNotBase64,
    UnknownServer,
    AlreadyMember,
    NotMember,
    NotInServer,
    TargetNotInServer,
    WrappedKeyNotBase64,
    NonceNotBase64,
    CiphertextNotBase64,
    StaleEpoch { expected: Epoch, got: Epoch },
    MessageSignatureInvalid(CryptoError),
}

pub enum DispatchErrorView {
    NotAuthenticated,
    KemKeyNotBase64,
    SigKeyNotBase64,
    Crypto(CryptoErrorView),
    UnknownUser,
    NoPendingAuth,
    SignatureNotBase64,
    UnknownServer,
    AlreadyMember,
    NotMember,
    NotInServer,
    TargetNotInServer,
    WrappedKeyNotBase64,
    NonceNotBase64,
    CiphertextNotBase64,
    StaleEpoch { expected: Epoch, got: Epoch },
    MessageSignatureInvalid(CryptoErrorView),
}

impl View for DispatchError {
    type V = DispatchErrorView;

    open spec fn view(&self) -> DispatchErrorView {
        match self {
            DispatchError::NotAuthenticated => DispatchErrorView::NotAuthenticated,
            DispatchError::KemKeyNotBase64 => DispatchErrorView::KemKeyNotBase64,
            DispatchError::SigKeyNotBase64 => DispatchErrorView::SigKeyNotBase64,
            DispatchError::Crypto(e) => DispatchErrorView::Crypto(e@),
            DispatchError::UnknownUser => DispatchErrorView::UnknownUser,
            DispatchError::NoPendingAuth => DispatchErrorView::NoPendingAuth,
            DispatchError::SignatureNotBase64 => DispatchErrorView::SignatureNotBase64,
            DispatchError::UnknownServer => DispatchErrorView::UnknownServer,
            DispatchError::AlreadyMember => DispatchErrorView::AlreadyMember,
            DispatchError::NotMember => DispatchErrorView::NotMember,
            DispatchError::NotInServer => DispatchErrorView::NotInServer,
            DispatchError::TargetNotInServer => DispatchErrorView::TargetNotInServer,
            DispatchError::WrappedKeyNotBase64 => DispatchErrorView::WrappedKeyNotBase64,
            DispatchError::NonceNotBase64 => DispatchErrorView::NonceNotBase64,
            DispatchError::CiphertextNotBase64 => DispatchErrorView::CiphertextNotBase64,
            DispatchError::StaleEpoch { expected, got } => DispatchErrorView::StaleEpoch {
                expected: *expected,
                got: *got,
            },
            DispatchError::MessageSignatureInvalid(e) => DispatchErrorView::MessageSignatureInvalid(
                e@,
            ),
        }
    }
}

impl DispatchErrorView {
    /// The text that the client is shown.
    pub open spec fn text(self) -> Seq<char> {
        match self {
            DispatchErrorView::NotAuthenticated => "not authenticated"@,
            DispatchErrorView::KemKeyNotBase64 => "kem_public_key not base64"@,
            DispatchErrorView::SigKeyNotBase64 => "sig_public_key not base64"@,
            DispatchErrorView::Crypto(e) => e.text(),
            DispatchErrorView::UnknownUser => "unknown user"@,
            DispatchErrorView::NoPendingAuth => "no pending auth — call auth_begin first"@,
            DispatchErrorView::SignatureNotBase64 => "signature not base64"@,
            DispatchErrorView::UnknownServer => "unknown server"@,
            DispatchErrorView::AlreadyMember => "already a member"@,
            DispatchErrorView::NotMember => "not a member"@,
            DispatchErrorView::NotInServer => "you are not in this server"@,
            DispatchErrorView::TargetNotInServer => "target is not in this server"@,
            DispatchErrorView::WrappedKeyNotBase64 => "wrapped_key not base64"@,
            DispatchErrorView::NonceNotBase64 => "nonce not base64"@,
            DispatchErrorView::CiphertextNotBase64 => "ciphertext not base64"@,
            DispatchErrorView::StaleEpoch { expected, got } => "stale epoch (expected "@ + decimal(
                expected as nat,
            ) + ", got "@ + decimal(got as nat) + ")"@,
            DispatchErrorView::MessageSignatureInvalid(_) => "message signature invalid"@,
        }
    }
}

impl DispatchError {
    /// The text that the client is shown.
    pub fn message(&self) -> (text: String)
        ensures
            text@ == self@.text(),
    {
        match self {
            DispatchError::NotAuthenticated => "not authenticated".to_owned(),
            DispatchError::KemKeyNotBase64 => "kem_public_key not base64".to_owned(),
            DispatchError::SigKeyNotBase64 => "sig_public_key not base64".to_owned(),
            DispatchError::Crypto(e) => e.message(),
            DispatchError::UnknownUser => "unknown user".to_owned(),
            DispatchError::NoPendingAuth => "no pending auth — call auth_begin first".to_owned(),
            DispatchError::SignatureNotBase64 => "signature not base64".to_owned(),
            DispatchError::UnknownServer => "unknown server".to_owned(),
            DispatchError::AlreadyMember => "already a member".to_owned(),
            DispatchError::NotMember => "not a member".to_owned(),
            DispatchError::NotInServer => "you are not in this server".to_owned(),
            DispatchError::TargetNotInServer => "target is not in this server".to_owned(),
            DispatchError::WrappedKeyNotBase64 => "wrapped_key not base64".to_owned(),
            DispatchError::NonceNotBase64 => "nonce not base64".to_owned(),
            DispatchError::CiphertextNotBase64 => "ciphertext not base64".to_owned(),
            DispatchError::StaleEpoch { expected, got } => {
                let head = join("stale epoch (expected ", decimal_text(*expected).as_str());
                let middle = join(head.as_str(), ", got ");
                let tail = join(middle.as_str(), decimal_text(*got).as_str());
                join(tail.as_str(), ")")
            },
            DispatchError::MessageSignatureInvalid(_) => "message signature invalid".to_owned(),
        }
    }
}

} // verus!
