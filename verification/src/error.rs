//! Failures reported by the signing and encryption engine.

use vstd::prelude::*;

verus! {

/// Why a signing, verification, encryption or decryption request was refused.
#[derive(Clone, Copy, Debug, PartialEq, Eq, Structural)]
pub enum TextError {
    /// The key buffer holds fewer than 32 bytes.
    KeyTooShort,
    /// The first 32 bytes of the key buffer do not encode a public key.
    InvalidPublicKey,
    /// The candidate tag or signature does not have the length that the
    /// algorithm fixes.
    MalformedSignatureEncoding,
    /// The authentication tag did not match: wrong passphrase or altered data.
    AuthenticationFailed,
    /// The envelope is shorter than a nonce.
    CiphertextTooShort,
    /// The plaintext is longer than the cipher can process under one nonce.
    PlaintextTooLong,
    /// The signature given as text is not URL-safe base64 without padding.
    SignatureNotBase64,
}

impl TextError {
    /// The sentence that describes the failure.
    pub open spec fn text(self) -> Seq<char> {
        match self {
            TextError::KeyTooShort => "Key must be at least 32 bytes"@,
            TextError::InvalidPublicKey => "Key is not a valid public key"@,
            TextError::MalformedSignatureEncoding => "Signature has the wrong length for the algorithm"@,
            TextError::AuthenticationFailed => "Decryption failed: authentication failed"@,
            TextError::CiphertextTooShort => "Ciphertext too short; expected nonce + payload"@,
            TextError::PlaintextTooLong => "Encryption failed: plaintext too long"@,
            TextError::SignatureNotBase64 => "Signature is not URL-safe base64"@,
        }
    }

    /// The sentence that describes the failure.
    pub fn message(self) -> (text: &'static str)
        ensures
            text@ == self.text(),
    {
        match self {
            TextError::KeyTooShort => "Key must be at least 32 bytes",
            TextError::InvalidPublicKey => "Key is not a valid public key",
            TextError::MalformedSignatureEncoding => "Signature has the wrong length for the algorithm",
            TextError::AuthenticationFailed => "Decryption failed: authentication failed",
            TextError::CiphertextTooShort => "Ciphertext too short; expected nonce + payload",
            TextError::PlaintextTooLong => "Encryption failed: plaintext too long",
            TextError::SignatureNotBase64 => "Signature is not URL-safe base64",
        }
    }

    /// The sentence that describes the failure, as an owned string.
    pub fn to_string(self) -> (text: String)
        ensures
            text@ == self.text(),
    {
        self.message().to_owned()
    }
}

/// A name that is not one of the formats a command offers.
#[derive(Clone, Copy, Debug, PartialEq, Eq, Structural)]
pub struct InvalidFormat;

} // verus!
