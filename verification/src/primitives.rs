//! The cryptographic primitives the library builds on.
//!
//! Hashing, signing and authenticated encryption are done by the `blake3`,
//! `ed25519-dalek` and `chacha20poly1305` crates, and randomness comes from
//! `rand`. Nothing in this module is proved: each function below makes one
//! call into one of those crates, and its contract records what that crate
//! documents. The results of the primitives are named by specification
//! functions without a body, so that the rest of the library can say exactly
//! which primitive was applied to which bytes.

use vstd::prelude::*;
use chacha20poly1305::aead::Aead;
use chacha20poly1305::aead::KeyInit;
use ed25519_dalek::Signer;
use ed25519_dalek::Verifier;
use rand::RngCore;

verus! {

/// Number of bytes in a BLAKE3 digest or keyed-hash tag.
pub const DIGEST_LEN: usize = 32;

/// Number of bytes in an Ed25519 signature.
pub const SIGNATURE_LEN: usize = 64;

/// Number of bytes in a ChaCha20-Poly1305 nonce.
pub const NONCE_LEN: usize = 12;

/// Number of bytes ChaCha20-Poly1305 appends to a plaintext as its tag.
pub const AEAD_TAG_LEN: usize = 16;

/// Number of bytes in a ChaCha20 block.
pub const AEAD_BLOCK_LEN: usize = 64;

/// Number of whole blocks at which ChaCha20-Poly1305 refuses a message.
pub const AEAD_MAX_BLOCKS: usize = 0xFFFF_FFFF;

/// The BLAKE3 keyed hash of `data` under the 32-byte `key`.
pub uninterp spec fn blake3_keyed_hash(key: Seq<u8>, data: Seq<u8>) -> [u8; 32];

/// The unkeyed BLAKE3 hash of `data`.
pub uninterp spec fn blake3_hash(data: Seq<u8>) -> [u8; 32];

/// The Ed25519 public key that belongs to the 32-byte `seed`.
pub uninterp spec fn ed25519_public_key(seed: Seq<u8>) -> [u8; 32];

/// The Ed25519 signature of `message` under the key expanded from `seed`.
pub uninterp spec fn ed25519_signature(seed: Seq<u8>, message: Seq<u8>) -> [u8; 64];

/// Whether the 32 bytes of `public_key` decode to an Ed25519 public key.
pub uninterp spec fn ed25519_key_valid(public_key: Seq<u8>) -> bool;

/// Whether Ed25519 verification of `signature` on `message` succeeds under
/// `public_key`.
pub uninterp spec fn ed25519_accepts(
    public_key: Seq<u8>,
    message: Seq<u8>,
    signature: Seq<u8>,
) -> bool;

/// The ChaCha20-Poly1305 ciphertext and tag of `plaintext`, without
/// associated data.
pub uninterp spec fn chacha20poly1305_seal(
    key: Seq<u8>,
    nonce: Seq<u8>,
    plaintext: Seq<u8>,
) -> Seq<u8>;

/// What ChaCha20-Poly1305 decryption of `sealed` yields: the plaintext, or
/// nothing where the tag does not match.
pub uninterp spec fn chacha20poly1305_open(
    key: Seq<u8>,
    nonce: Seq<u8>,
    sealed: Seq<u8>,
) -> Option<Seq<u8>>;

/// Whether the public key that belongs to `seed` decodes and accepts
/// `signature` on `message`.
pub open spec fn accepted_under_own_key(seed: Seq<u8>, message: Seq<u8>, signature: Seq<u8>) -> bool {
    &&& ed25519_key_valid(ed25519_public_key(seed)@)
    &&& ed25519_accepts(ed25519_public_key(seed)@, message, signature)
}

/// Whether ChaCha20-Poly1305 takes a message of `len` bytes.
pub open spec fn aead_accepts_len(len: nat) -> bool {
    len / (AEAD_BLOCK_LEN as nat) < AEAD_MAX_BLOCKS
}

/// The bytes held by an optional buffer.
pub open spec fn opt_bytes(buffer: Option<Vec<u8>>) -> Option<Seq<u8>> {
    match buffer {
        Some(bytes) => Some(bytes@),
        None => None,
    }
}

/// Calls `blake3::keyed_hash`. The 32-byte tag it returns is named
/// [`blake3_keyed_hash`].
#[verifier::external_body]
pub(crate) fn keyed_hash(key: &[u8; 32], data: &[u8]) -> (tag: [u8; 32])
    ensures
        tag == blake3_keyed_hash(key@, data@),
{
    *blake3::keyed_hash(key, data).as_bytes()
}

/// Calls `blake3::hash`. The 32-byte digest it returns is named
/// [`blake3_hash`].
#[verifier::external_body]
pub(crate) fn hash(data: &[u8]) -> (digest: [u8; 32])
    ensures
        digest == blake3_hash(data@),
{
    *blake3::hash(data).as_bytes()
}

/// Calls `ed25519_dalek::SigningKey::from_bytes` and returns the bytes of the
/// verifying key it computes, named [`ed25519_public_key`]. Those bytes
/// decode again to a verifying key.
#[verifier::external_body]
pub(crate) fn derive_public_key(seed: &[u8; 32]) -> (public_key: [u8; 32])
    ensures
        public_key == ed25519_public_key(seed@),
        ed25519_key_valid(public_key@),
{
    ed25519_dalek::SigningKey::from_bytes(seed).verifying_key().to_bytes()
}

/// Calls `Signer::sign` on the `ed25519_dalek::SigningKey` of `seed`. The
/// signature is named [`ed25519_signature`]; as the crate documents, the
/// verifying key of the same seed accepts it for the same message.
#[verifier::external_body]
pub(crate) fn sign_with_seed(seed: &[u8; 32], message: &[u8]) -> (signature: [u8; 64])
    ensures
        signature == ed25519_signature(seed@, message@),
        accepted_under_own_key(seed@, message@, signature@),
{
    ed25519_dalek::SigningKey::from_bytes(seed).sign(message).to_bytes()
}

/// Calls `ed25519_dalek::VerifyingKey::from_bytes` and says whether it
/// returned a key.
#[verifier::external_body]
pub(crate) fn public_key_decodes(public_key: &[u8; 32]) -> (ok: bool)
    ensures
        ok == ed25519_key_valid(public_key@),
{
    ed25519_dalek::VerifyingKey::from_bytes(public_key).is_ok()
}

/// Calls `Verifier::verify` on the `ed25519_dalek::VerifyingKey` decoded from
/// `public_key`. The answer is `true` exactly when the key decodes and the
/// verification returns `Ok`.
#[verifier::external_body]
pub(crate) fn verify_with_public_key(
    public_key: &[u8; 32],
    message: &[u8],
    signature: &[u8; 64],
) -> (ok: bool)
    ensures
        ok == (ed25519_key_valid(public_key@) && ed25519_accepts(
            public_key@,
            message@,
            signature@,
        )),
{
    match ed25519_dalek::VerifyingKey::from_bytes(public_key) {
        Ok(key) => key.verify(message, &ed25519_dalek::Signature::from_bytes(signature)).is_ok(),
        Err(_) => false,
    }
}

/// Calls `Aead::encrypt` of `chacha20poly1305::ChaCha20Poly1305` with no
/// associated data. The cipher refuses a plaintext of 2^32 - 1 blocks or
/// more and takes every other; what it returns is the plaintext's length
/// plus a 16-byte tag, is named [`chacha20poly1305_seal`], and decrypts
/// under the same key and nonce to the plaintext.
#[verifier::external_body]
pub(crate) fn aead_seal(key: &[u8; 32], nonce: &[u8; 12], plaintext: &[u8]) -> (sealed: Option<
    Vec<u8>,
>)
    ensures
        sealed is Some <==> aead_accepts_len(plaintext@.len()),
        sealed matches Some(bytes) ==> {
            &&& bytes@ == chacha20poly1305_seal(key@, nonce@, plaintext@)
            &&& bytes@.len() == plaintext@.len() + AEAD_TAG_LEN
            &&& chacha20poly1305_open(key@, nonce@, bytes@) == Some(plaintext@)
        },
{
    let cipher = chacha20poly1305::ChaCha20Poly1305::new(chacha20poly1305::Key::from_slice(key));
    cipher.encrypt(chacha20poly1305::Nonce::from_slice(nonce), plaintext).ok()
}

/// Calls `Aead::decrypt` of `chacha20poly1305::ChaCha20Poly1305` with no
/// associated data. The outcome is named [`chacha20poly1305_open`]; an input
/// shorter than the tag is always refused, and a plaintext is 16 bytes
/// shorter than the input.
#[verifier::external_body]
pub(crate) fn aead_open(key: &[u8; 32], nonce: &[u8; 12], sealed: &[u8]) -> (plaintext: Option<
    Vec<u8>,
>)
    ensures
        opt_bytes(plaintext) == chacha20poly1305_open(key@, nonce@, sealed@),
        sealed@.len() < AEAD_TAG_LEN ==> plaintext is None,
        plaintext matches Some(bytes) ==> bytes@.len() + AEAD_TAG_LEN == sealed@.len(),
{
    let cipher = chacha20poly1305::ChaCha20Poly1305::new(chacha20poly1305::Key::from_slice(key));
    cipher.decrypt(chacha20poly1305::Nonce::from_slice(nonce), sealed).ok()
}

/// Calls `RngCore::fill_bytes` on `rand::rng()`, the thread's
/// cryptographically secure generator. Nothing is known of the bytes.
#[verifier::external_body]
pub(crate) fn random_bytes<const N: usize>() -> [u8; N] {
    let mut bytes = [0u8; N];
    rand::rng().fill_bytes(&mut bytes);
    bytes
}

} // verus!
