//! Tags and signatures over whole messages.
//!
//! Two algorithms stand behind one interface. [`Blake3`] authenticates with
//! a key that signer and verifier share; [`Ed25519Signer`] signs with a seed
//! and [`Ed25519Verifier`] checks with the public key that belongs to it.
//! Every operation is a function of the key buffer, the message and, for
//! verification, the candidate tag: nothing is kept between calls.
//!
//! A key buffer may be longer than 32 bytes; only its first 32 bytes count
//! (see [`crate::keys`]).

use vstd::prelude::*;
use crate::bytes::bytes_eq;
use crate::bytes::concat;
use crate::bytes::prefix;
use crate::bytes::tail;
use crate::cli::genpass::GenPassOpts;
use crate::cli::text::TextSignFormat;
use crate::error::TextError;
use crate::keys::KEY_LEN;
use crate::keys::KeyMaterial;
use crate::keys::KeyRole;
use crate::keys::normalized;
use crate::primitives::AEAD_TAG_LEN;
use crate::primitives::DIGEST_LEN;
use crate::primitives::NONCE_LEN;
use crate::primitives::SIGNATURE_LEN;
use crate::primitives::accepted_under_own_key;
use crate::primitives::aead_accepts_len;
use crate::primitives::aead_open;
use crate::primitives::aead_seal;
use crate::primitives::blake3_hash;
use crate::primitives::blake3_keyed_hash;
use crate::primitives::chacha20poly1305_open;
use crate::primitives::chacha20poly1305_seal;
use crate::primitives::derive_public_key;
use crate::primitives::ed25519_accepts;
use crate::primitives::ed25519_key_valid;
use crate::primitives::ed25519_public_key;
use crate::primitives::ed25519_signature;
use crate::primitives::hash;
use crate::primitives::keyed_hash;
use crate::primitives::public_key_decodes;
use crate::primitives::random_bytes;
use crate::primitives::sign_with_seed;
use crate::primitives::verify_with_public_key;
use crate::process::gen_pass::generate_password;
use crate::process::gen_pass::is_password_for;
use crate::strings::str_eq;

verus! {

/// The bytes of an outcome that carries a buffer.
pub open spec fn bytes_outcome(r: Result<Vec<u8>, TextError>) -> Result<Seq<u8>, TextError> {
    match r {
        Ok(bytes) => Ok(bytes@),
        Err(e) => Err(e),
    }
}

/// What signing `data` with the key buffer `key` yields.
pub open spec fn sign_outcome(format: TextSignFormat, key: Seq<u8>, data: Seq<u8>) -> Result<
    Seq<u8>,
    TextError,
> {
    match normalized(key) {
        Err(e) => Err(e),
        Ok(k) => match format {
            TextSignFormat::Blake3 => Ok(blake3_keyed_hash(k, data)@),
            TextSignFormat::Ed25519 => Ok(ed25519_signature(k, data)@),
        },
    }
}

/// What checking the candidate `sig` on `data` with the key buffer `key`
/// yields. A key that is too short is reported before one that does not
/// decode, and that before a candidate of the wrong length. A candidate of
/// the right length that does not match is no error.
pub open spec fn verify_outcome(
    format: TextSignFormat,
    key: Seq<u8>,
    data: Seq<u8>,
    sig: Seq<u8>,
) -> Result<bool, TextError> {
    match normalized(key) {
        Err(e) => Err(e),
        Ok(k) => if format == TextSignFormat::Ed25519 && !ed25519_key_valid(k) {
            Err(TextError::InvalidPublicKey)
        } else if sig.len() != signature_len(format) {
            Err(TextError::MalformedSignatureEncoding)
        } else {
            match format {
                TextSignFormat::Blake3 => Ok(blake3_keyed_hash(k, data)@ == sig),
                TextSignFormat::Ed25519 => Ok(ed25519_accepts(k, data, sig)),
            }
        },
    }
}

/// Whether the key buffer `verifying` checks what the key buffer `signing`
/// signs: the same effective key for the keyed hash, the public key of the
/// seed for signatures.
pub open spec fn checks_for(format: TextSignFormat, signing: Seq<u8>, verifying: Seq<u8>) -> bool {
    match (normalized(signing), normalized(verifying)) {
        (Ok(s), Ok(v)) => match format {
            TextSignFormat::Blake3 => s == v,
            TextSignFormat::Ed25519 => v == ed25519_public_key(s)@,
        },
        _ => false,
    }
}

/// Keyed-hash signer and verifier.
pub struct Blake3 {
    key: [u8; 32],
}

impl Blake3 {
    /// The 32-byte key.
    pub closed spec fn key(&self) -> Seq<u8> {
        self.key@
    }

    /// Takes a key of exactly 32 bytes.
    pub fn new(key: [u8; 32]) -> (s: Self)
        ensures
            s.key() == key@,
    {
        Blake3 { key }
    }

    /// Takes the first 32 bytes of a key buffer, and refuses a shorter one.
    pub fn try_new(key: &[u8]) -> (r: Result<Self, TextError>)
        ensures
            match r {
                Ok(s) => normalized(key@) == Ok::<Seq<u8>, TextError>(s.key()),
                Err(e) => normalized(key@) == Err::<Seq<u8>, TextError>(e),
            },
    {
        match KeyMaterial::normalize(key, KeyRole::KeyedHashKey) {
            Ok(material) => {
                let key = prefix::<32>(material.as_bytes());
                assert(key@ =~= material.bytes());
                Ok(Blake3::new(key))
            },
            Err(e) => Err(e),
        }
    }

    /// The 32-byte tag of `data`.
    pub fn sign(&self, data: &[u8]) -> (tag: Vec<u8>)
        ensures
            tag@ == blake3_keyed_hash(self.key(), data@)@,
            tag@.len() == DIGEST_LEN,
    {
        let tag = keyed_hash(&self.key, data);
        vstd::slice::slice_to_vec(tag.as_slice())
    }

    /// Whether `sig` is the tag of `data`. A candidate that does not have
    /// 32 bytes is an error. For any other the tag is computed anew and
    /// compared with it byte by byte, in time that may depend on where the
    /// two differ.
    pub fn verify(&self, data: &[u8], sig: &[u8]) -> (r: Result<bool, TextError>)
        ensures
            r == if sig@.len() != DIGEST_LEN {
                Err::<bool, TextError>(TextError::MalformedSignatureEncoding)
            } else {
                Ok::<bool, TextError>(blake3_keyed_hash(self.key(), data@)@ == sig@)
            },
    {
        if sig.len() != DIGEST_LEN {
            return Err(TextError::MalformedSignatureEncoding);
        }
        let tag = keyed_hash(&self.key, data);
        Ok(bytes_eq(tag.as_slice(), sig))
    }
}

/// Ed25519 signer, made from a 32-byte seed.
pub struct Ed25519Signer {
    key: [u8; 32],
}

impl Ed25519Signer {
    /// The seed.
    pub closed spec fn seed(&self) -> Seq<u8> {
        self.key@
    }

    /// Takes the first 32 bytes of a key buffer as the seed, and refuses a
    /// shorter one.
    pub fn try_new(key: &[u8]) -> (r: Result<Self, TextError>)
        ensures
            match r {
                Ok(s) => normalized(key@) == Ok::<Seq<u8>, TextError>(s.seed()),
                Err(e) => normalized(key@) == Err::<Seq<u8>, TextError>(e),
            },
    {
        match KeyMaterial::normalize(key, KeyRole::SigningSeed) {
            Ok(material) => {
                let key = prefix::<32>(material.as_bytes());
                assert(key@ =~= material.bytes());
                Ok(Ed25519Signer::new(&key))
            },
            Err(e) => Err(e),
        }
    }

    /// Takes a seed of exactly 32 bytes.
    pub fn new(key: &[u8; 32]) -> (s: Self)
        ensures
            s.seed() == key@,
    {
        Ed25519Signer { key: *key }
    }

    /// The 64-byte signature of `data`. The public key of the seed accepts
    /// it.
    pub fn sign(&self, data: &[u8]) -> (sig: Vec<u8>)
        ensures
            sig@ == ed25519_signature(self.seed(), data@)@,
            sig@.len() == SIGNATURE_LEN,
            accepted_under_own_key(self.seed(), data@, sig@),
    {
        let sig = sign_with_seed(&self.key, data);
        vstd::slice::slice_to_vec(sig.as_slice())
    }
}

/// Ed25519 verifier, made from the 32 bytes of a public key.
pub struct Ed25519Verifier {
    key: [u8; 32],
}

impl Ed25519Verifier {
    /// The public key. It always decodes.
    pub closed spec fn public_key(&self) -> Seq<u8> {
        self.key@
    }

    #[verifier::type_invariant]
    spec fn decodes(&self) -> bool {
        ed25519_key_valid(self.key@)
    }

    /// Takes the first 32 bytes of a key buffer as the public key. A shorter
    /// buffer is refused, and so are 32 bytes that do not decode.
    pub fn try_new(key: &[u8]) -> (r: Result<Self, TextError>)
        ensures
            match normalized(key@) {
                Err(e) => r matches Err(f) && f == e,
                Ok(k) => if ed25519_key_valid(k) {
                    r matches Ok(v) && v.public_key() == k
                } else {
                    r matches Err(e) && e == TextError::InvalidPublicKey
                },
            },
    {
        match KeyMaterial::normalize(key, KeyRole::VerifyingKeyBytes) {
            Ok(material) => {
                let key = prefix::<32>(material.as_bytes());
                assert(key@ =~= material.bytes());
                if public_key_decodes(&key) {
                    Ok(Ed25519Verifier { key })
                } else {
                    Err(TextError::InvalidPublicKey)
                }
            },
            Err(e) => Err(e),
        }
    }

    /// Whether the public key accepts `sig` on `data`. A candidate that does
    /// not have 64 bytes is an error; one that has, and is not accepted, is
    /// `Ok(false)`.
    pub fn verify(&self, data: &[u8], sig: &[u8]) -> (r: Result<bool, TextError>)
        ensures
            ed25519_key_valid(self.public_key()),
            r == if sig@.len() != SIGNATURE_LEN {
                Err::<bool, TextError>(TextError::MalformedSignatureEncoding)
            } else {
                Ok::<bool, TextError>(ed25519_accepts(self.public_key(), data@, sig@))
            },
    {
        proof {
            use_type_invariant(self);
        }
        if sig.len() != SIGNATURE_LEN {
            return Err(TextError::MalformedSignatureEncoding);
        }
        let fixed = prefix::<64>(sig);
        assert(fixed@ =~= sig@);
        Ok(verify_with_public_key(&self.key, data, &fixed))
    }
}

/// The length of every tag or signature of a format.
pub open spec fn signature_len(format: TextSignFormat) -> nat {
    match format {
        TextSignFormat::Blake3 => DIGEST_LEN as nat,
        TextSignFormat::Ed25519 => SIGNATURE_LEN as nat,
    }
}

/// Signs `data` with the key buffer `key`.
///
/// Fails only on a key buffer of fewer than 32 bytes. The result is checked
/// successfully, for the same message, by every key buffer that belongs to
/// `key`, and checking it for another message with such a key buffer is
/// never an error.
pub fn process_text_sign(data: &[u8], key: &[u8], format: TextSignFormat) -> (r: Result<
    Vec<u8>,
    TextError,
>)
    ensures
        bytes_outcome(r) == sign_outcome(format, key@, data@),
        r matches Ok(sig) ==> {
            &&& sig@.len() == signature_len(format)
            &&& forall|verifying: Seq<u8>| #[trigger]
                checks_for(format, key@, verifying) ==> verify_outcome(
                    format,
                    verifying,
                    data@,
                    sig@,
                ) == Ok::<bool, TextError>(true)
            &&& forall|verifying: Seq<u8>, other: Seq<u8>|
                checks_for(format, key@, verifying) ==> (#[trigger] verify_outcome(
                    format,
                    verifying,
                    other,
                    sig@,
                )) is Ok
        },
{
    match format {
        TextSignFormat::Blake3 => {
            match Blake3::try_new(key) {
                Ok(signer) => Ok(signer.sign(data)),
                Err(e) => Err(e),
            }
        },
        TextSignFormat::Ed25519 => {
            match Ed25519Signer::try_new(key) {
                Ok(signer) => Ok(signer.sign(data)),
                Err(e) => Err(e),
            }
        },
    }
}

/// Checks the candidate `sig` on `data` with the key buffer `key`.
///
/// A candidate that does not match is `Ok(false)`, not an error.
pub fn process_text_verify(data: &[u8], key: &[u8], sig: &[u8], format: TextSignFormat) -> (r:
    Result<bool, TextError>)
    ensures
        r == verify_outcome(format, key@, data@, sig@),
{
    match format {
        TextSignFormat::Blake3 => {
            match Blake3::try_new(key) {
                Ok(verifier) => verifier.verify(data, sig),
                Err(e) => Err(e),
            }
        },
        TextSignFormat::Ed25519 => {
            match Ed25519Verifier::try_new(key) {
                Ok(verifier) => verifier.verify(data, sig),
                Err(e) => Err(e),
            }
        },
    }
}

/// Every tag or signature has the length that its format fixes.
pub proof fn lemma_signature_length(format: TextSignFormat, key: Seq<u8>, data: Seq<u8>)
    ensures
        sign_outcome(format, key, data) matches Ok(sig) ==> sig.len() == signature_len(format),
{
}

/// A keyed-hash tag is accepted for the message and key buffer it was made
/// from.
pub proof fn lemma_keyed_hash_round_trip(key: Seq<u8>, data: Seq<u8>)
    requires
        key.len() >= KEY_LEN,
    ensures
        sign_outcome(TextSignFormat::Blake3, key, data) matches Ok(tag) && verify_outcome(
            TextSignFormat::Blake3,
            key,
            data,
            tag,
        ) == Ok::<bool, TextError>(true),
{
}

/// Checking the keyed-hash tag of one message against another message is
/// never an error, and the answer is `false` unless both messages have the
/// same tag.
pub proof fn lemma_keyed_hash_mismatch(key: Seq<u8>, signed: Seq<u8>, checked: Seq<u8>)
    requires
        key.len() >= KEY_LEN,
    ensures
        sign_outcome(TextSignFormat::Blake3, key, signed) matches Ok(tag) && verify_outcome(
            TextSignFormat::Blake3,
            key,
            checked,
            tag,
        ) == Ok::<bool, TextError>(
            sign_outcome(TextSignFormat::Blake3, key, checked) == Ok::<Seq<u8>, TextError>(tag),
        ),
{
}

/// Bytes after the 32nd of a key buffer change nothing: the buffer with and
/// without them has the same effective key, signs alike and checks alike.
pub proof fn lemma_trailing_bytes_ignored(
    format: TextSignFormat,
    key: Seq<u8>,
    extra: Seq<u8>,
    data: Seq<u8>,
    sig: Seq<u8>,
)
    requires
        key.len() >= KEY_LEN,
    ensures
        normalized(key + extra) == normalized(key),
        sign_outcome(format, key + extra, data) == sign_outcome(format, key, data),
        verify_outcome(format, key + extra, data, sig) == verify_outcome(format, key, data, sig),
{
    assert((key + extra).subrange(0, KEY_LEN as int) =~= key.subrange(0, KEY_LEN as int));
}

/// A key buffer of fewer than 32 bytes is refused by both algorithms, for
/// signing and for checking.
pub proof fn lemma_short_key_refused(
    format: TextSignFormat,
    key: Seq<u8>,
    data: Seq<u8>,
    sig: Seq<u8>,
)
    requires
        key.len() < KEY_LEN,
    ensures
        sign_outcome(format, key, data) == Err::<Seq<u8>, TextError>(TextError::KeyTooShort),
        verify_outcome(format, key, data, sig) == Err::<bool, TextError>(TextError::KeyTooShort),
{
}

/// The 32-byte cipher key that a passphrase stands for: the passphrase
/// itself where it has exactly 32 bytes, its BLAKE3 hash otherwise.
pub open spec fn derived_cipher_key(passphrase: Seq<u8>) -> Seq<u8> {
    if passphrase.len() == KEY_LEN {
        passphrase
    } else {
        blake3_hash(passphrase)@
    }
}

/// What encrypting `plaintext` under `passphrase` with the given nonce
/// yields: the nonce, followed by ciphertext and tag.
pub open spec fn encrypt_outcome(passphrase: Seq<u8>, plaintext: Seq<u8>, nonce: Seq<u8>) -> Result<
    Seq<u8>,
    TextError,
> {
    if aead_accepts_len(plaintext.len()) {
        Ok(nonce + chacha20poly1305_seal(derived_cipher_key(passphrase), nonce, plaintext))
    } else {
        Err(TextError::PlaintextTooLong)
    }
}

/// What decrypting the envelope `data` under `passphrase` yields.
pub open spec fn decrypt_outcome(passphrase: Seq<u8>, data: Seq<u8>) -> Result<
    Seq<u8>,
    TextError,
> {
    if data.len() < NONCE_LEN {
        Err(TextError::CiphertextTooShort)
    } else {
        match chacha20poly1305_open(
            derived_cipher_key(passphrase),
            data.subrange(0, NONCE_LEN as int),
            data.subrange(NONCE_LEN as int, data.len() as int),
        ) {
            Some(plaintext) => Ok(plaintext),
            None => Err(TextError::AuthenticationFailed),
        }
    }
}

/// Derives the cipher key of a passphrase of any length.
pub fn derive_chacha_key(key: &[u8]) -> (derived: [u8; 32])
    ensures
        derived@ == derived_cipher_key(key@),
{
    if key.len() == KEY_LEN {
        let derived = prefix::<32>(key);
        assert(derived@ =~= key@);
        derived
    } else {
        hash(key)
    }
}

/// Encrypts `plaintext` under the passphrase `key` with a nonce chosen by
/// the caller. The nonce must never be used twice with one passphrase.
///
/// Decrypting the envelope under the same passphrase gives the plaintext
/// back.
pub fn encrypt_with_nonce(plaintext: &[u8], key: &[u8], nonce: &[u8; 12]) -> (r: Result<
    Vec<u8>,
    TextError,
>)
    ensures
        bytes_outcome(r) == encrypt_outcome(key@, plaintext@, nonce@),
        r matches Ok(envelope) ==> {
            &&& envelope@.len() == NONCE_LEN + plaintext@.len() + AEAD_TAG_LEN
            &&& decrypt_outcome(key@, envelope@) == Ok::<Seq<u8>, TextError>(plaintext@)
        },
{
    let derived = derive_chacha_key(key);
    match aead_seal(&derived, nonce, plaintext) {
        Some(sealed) => {
            let envelope = concat(nonce.as_slice(), sealed.as_slice());
            proof {
                assert(envelope@.subrange(0, NONCE_LEN as int) =~= nonce@);
                assert(envelope@.subrange(NONCE_LEN as int, envelope@.len() as int) =~= sealed@);
            }
            Ok(envelope)
        },
        None => Err(TextError::PlaintextTooLong),
    }
}

/// Encrypts `plaintext` under the passphrase `key` with a fresh random
/// nonce, which leads the envelope.
///
/// Succeeds on every plaintext the cipher takes. Decrypting the envelope
/// under the same passphrase gives the plaintext back.
pub fn process_text_encrypt(plaintext: &[u8], key: &[u8]) -> (r: Result<Vec<u8>, TextError>)
    ensures
        match r {
            Ok(envelope) => {
                &&& envelope@.len() == NONCE_LEN + plaintext@.len() + AEAD_TAG_LEN
                &&& encrypt_outcome(key@, plaintext@, envelope@.subrange(0, NONCE_LEN as int))
                    == Ok::<Seq<u8>, TextError>(envelope@)
                &&& decrypt_outcome(key@, envelope@) == Ok::<Seq<u8>, TextError>(plaintext@)
            },
            Err(e) => e == TextError::PlaintextTooLong && !aead_accepts_len(plaintext@.len()),
        },
{
    let nonce = random_bytes::<12>();
    match encrypt_with_nonce(plaintext, key, &nonce) {
        Ok(envelope) => {
            assert(envelope@.subrange(0, NONCE_LEN as int) =~= nonce@);
            Ok(envelope)
        },
        Err(e) => Err(e),
    }
}

/// Decrypts an envelope under the passphrase `key`.
///
/// An envelope shorter than a nonce is refused as such; any other that the
/// cipher does not authenticate, among them every one too short to hold a
/// tag, is an authentication failure, and no plaintext is returned.
pub fn process_text_decrypt(data: &[u8], key: &[u8]) -> (r: Result<Vec<u8>, TextError>)
    ensures
        bytes_outcome(r) == decrypt_outcome(key@, data@),
        NONCE_LEN <= data@.len() < NONCE_LEN + AEAD_TAG_LEN ==> r == Err::<Vec<u8>, TextError>(
            TextError::AuthenticationFailed,
        ),
        r matches Ok(plaintext) ==> plaintext@.len() + NONCE_LEN + AEAD_TAG_LEN == data@.len(),
{
    if data.len() < NONCE_LEN {
        return Err(TextError::CiphertextTooShort);
    }
    let nonce = prefix::<12>(data);
    let sealed = tail(data, NONCE_LEN);
    let derived = derive_chacha_key(key);
    match aead_open(&derived, &nonce, sealed.as_slice()) {
        Some(plaintext) => Ok(plaintext),
        None => Err(TextError::AuthenticationFailed),
    }
}

/// Envelopes made with different nonces differ, whatever the passphrase and
/// the plaintext.
pub proof fn lemma_nonce_distinguishes_envelopes(
    passphrase: Seq<u8>,
    plaintext: Seq<u8>,
    first: Seq<u8>,
    second: Seq<u8>,
)
    requires
        first.len() == NONCE_LEN,
        second.len() == NONCE_LEN,
        first != second,
        aead_accepts_len(plaintext.len()),
    ensures
        encrypt_outcome(passphrase, plaintext, first) != encrypt_outcome(
            passphrase,
            plaintext,
            second,
        ),
{
    let a = encrypt_outcome(passphrase, plaintext, first);
    let b = encrypt_outcome(passphrase, plaintext, second);
    if a == b {
        assert(a->Ok_0.subrange(0, NONCE_LEN as int) =~= first);
        assert(b->Ok_0.subrange(0, NONCE_LEN as int) =~= second);
    }
}

/// An envelope shorter than a nonce is refused as too short, whatever the
/// passphrase.
pub proof fn lemma_short_envelope_refused(passphrase: Seq<u8>, data: Seq<u8>)
    requires
        data.len() < NONCE_LEN,
    ensures
        decrypt_outcome(passphrase, data) == Err::<Seq<u8>, TextError>(
            TextError::CiphertextTooShort,
        ),
{
}

/// An envelope of at least a nonce's length either decrypts or fails
/// authentication: there is no third outcome.
pub proof fn lemma_decrypt_fails_only_by_authentication(passphrase: Seq<u8>, data: Seq<u8>)
    requires
        data.len() >= NONCE_LEN,
    ensures
        decrypt_outcome(passphrase, data) is Ok || decrypt_outcome(passphrase, data) == Err::<
            Seq<u8>,
            TextError,
        >(TextError::AuthenticationFailed),
{
}

/// Passphrases with the same derived key are interchangeable.
pub proof fn lemma_derived_key_decides(first: Seq<u8>, second: Seq<u8>, data: Seq<u8>)
    requires
        derived_cipher_key(first) == derived_cipher_key(second),
    ensures
        decrypt_outcome(first, data) == decrypt_outcome(second, data),
{
}

/// One generated key under the file name it is conventionally stored as.
pub struct KeyArtifact {
    /// The conventional file name.
    pub name: &'static str,
    /// The raw key bytes.
    pub bytes: Vec<u8>,
}

/// The keys that one generation request produced, in the order in which
/// they are to be stored. No name occurs twice.
pub struct GeneratedKeySet {
    artifacts: Vec<KeyArtifact>,
}

/// Index of the first entry called `name`, or the number of entries where
/// there is none.
pub open spec fn position_of(entries: Seq<(Seq<char>, Seq<u8>)>, name: Seq<char>) -> int
    decreases entries.len(),
{
    if entries.len() == 0 {
        0
    } else if entries[0].0 == name {
        0
    } else {
        1 + position_of(entries.drop_first(), name)
    }
}

/// The position of a name is the least index at which it stands.
pub proof fn lemma_position_of(entries: Seq<(Seq<char>, Seq<u8>)>, name: Seq<char>)
    ensures
        0 <= position_of(entries, name) <= entries.len(),
        position_of(entries, name) < entries.len() ==> entries[position_of(entries, name)].0
            == name,
        forall|i: int| 0 <= i < position_of(entries, name) ==> (#[trigger] entries[i]).0 != name,
    decreases entries.len(),
{
    if entries.len() > 0 && entries[0].0 != name {
        let rest = entries.drop_first();
        lemma_position_of(rest, name);
        assert forall|i: int| 0 <= i < position_of(entries, name) implies (
        #[trigger] entries[i]).0 != name by {
            if i > 0 {
                assert(entries[i] == rest[i - 1]);
            }
        }
    }
}

impl GeneratedKeySet {
    /// Names and key bytes, in order.
    pub closed spec fn entries(&self) -> Seq<(Seq<char>, Seq<u8>)> {
        Seq::new(self.artifacts@.len(), |i: int| (self.artifacts@[i].name@, self.artifacts@[i].bytes@))
    }

    /// The key bytes stored under `name`, if any.
    pub open spec fn lookup(&self, name: Seq<char>) -> Option<Seq<u8>> {
        let at = position_of(self.entries(), name);
        if at < self.entries().len() {
            Some(self.entries()[at].1)
        } else {
            None
        }
    }

    /// Whether no name occurs twice.
    pub open spec fn names_distinct(&self) -> bool {
        forall|i: int, j: int|
            0 <= i < j < self.entries().len() ==> (#[trigger] self.entries()[i]).0 != (
            #[trigger] self.entries()[j]).0
    }

    /// Number of keys.
    pub fn len(&self) -> (n: usize)
        ensures
            n == self.entries().len(),
    {
        self.artifacts.len()
    }

    /// The key at position `i`.
    pub fn artifact(&self, i: usize) -> (a: &KeyArtifact)
        requires
            i < self.entries().len(),
        ensures
            (a.name@, a.bytes@) == self.entries()[i as int],
    {
        &self.artifacts[i]
    }

    /// The key bytes stored under `name`, if any.
    pub fn get(&self, name: &str) -> (r: Option<&Vec<u8>>)
        ensures
            match r {
                Some(bytes) => self.lookup(name@) == Some(bytes@),
                None => self.lookup(name@) is None,
            },
    {
        let mut i: usize = 0;
        assert(self.entries().subrange(0, self.entries().len() as int) =~= self.entries());
        while i < self.artifacts.len()
            invariant
                i <= self.entries().len(),
                self.entries().len() == self.artifacts@.len(),
                position_of(self.entries(), name@) == i + position_of(
                    self.entries().subrange(i as int, self.entries().len() as int),
                    name@,
                ),
            decreases self.artifacts@.len() - i,
        {
            let ghost rest = self.entries().subrange(i as int, self.entries().len() as int);
            assert(rest[0] == self.entries()[i as int]);
            if str_eq(self.artifacts[i].name, name) {
                return Some(&self.artifacts[i].bytes);
            }
            assert(rest.drop_first() =~= self.entries().subrange(
                i + 1,
                self.entries().len() as int,
            ));
            i += 1;
        }
        assert(self.entries().subrange(i as int, self.entries().len() as int).len() == 0);
        None
    }

    /// Whether a key is stored under `name`.
    pub fn contains_key(&self, name: &str) -> (r: bool)
        ensures
            r == self.lookup(name@) is Some,
    {
        self.get(name).is_some()
    }
}

/// The options with which a keyed-hash key is drawn: 32 printable
/// characters from all four classes.
pub open spec fn key_opts() -> GenPassOpts {
    GenPassOpts { length: KEY_LEN, ..GenPassOpts::default_opts() }
}

/// Whether `keys` is what generating a keyed-hash key yields: one entry,
/// `blake3.txt`, holding 32 printable characters.
pub open spec fn is_blake3_key_set(keys: GeneratedKeySet) -> bool {
    &&& keys.entries().len() == 1
    &&& keys.entries()[0].0 == "blake3.txt"@
    &&& is_password_for(key_opts(), keys.entries()[0].1)
}

/// Whether `keys` is what generating a key pair from `seed` yields: the seed
/// as `ed25519.sk`, then its public key as `ed25519.pk`.
pub open spec fn is_ed25519_key_set(keys: GeneratedKeySet, seed: Seq<u8>) -> bool {
    keys.entries() == seq![
        ("ed25519.sk"@, seed),
        ("ed25519.pk"@, ed25519_public_key(seed)@),
    ]
}

/// Whether `keys` is what generating keys for `format` yields.
pub open spec fn generated_for(format: TextSignFormat, keys: GeneratedKeySet) -> bool {
    match format {
        TextSignFormat::Blake3 => is_blake3_key_set(keys),
        TextSignFormat::Ed25519 => {
            &&& keys.entries().len() == 2
            &&& keys.entries()[0].1.len() == KEY_LEN
            &&& keys.entries()[1].1.len() == KEY_LEN
            &&& is_ed25519_key_set(keys, keys.entries()[0].1)
            &&& ed25519_key_valid(keys.entries()[1].1)
        },
    }
}

/// An algorithm that can make fresh keys for itself.
pub trait KeyGenerator {
    /// Whether `keys` is a key set of this algorithm.
    spec fn generated(keys: GeneratedKeySet) -> bool;

    /// Makes fresh keys. Nothing is written anywhere: storing them is the
    /// caller's business.
    fn generate() -> (keys: GeneratedKeySet)
        ensures
            Self::generated(keys),
            keys.names_distinct(),
    ;
}

impl KeyGenerator for Blake3 {
    open spec fn generated(keys: GeneratedKeySet) -> bool {
        generated_for(TextSignFormat::Blake3, keys)
    }

    fn generate() -> (keys: GeneratedKeySet) {
        let opts = GenPassOpts { length: KEY_LEN, ..GenPassOpts::get_default_opts() };
        let key = match generate_password(&opts) {
            Some(key) => key,
            None => Vec::new(),
        };
        let mut artifacts: Vec<KeyArtifact> = Vec::new();
        artifacts.push(KeyArtifact { name: "blake3.txt", bytes: key });
        let keys = GeneratedKeySet { artifacts };
        assert(keys.entries()[0] == ("blake3.txt"@, key@));
        keys
    }
}

impl Ed25519Signer {
    /// The key pair of a given seed.
    pub fn generate_from_seed(seed: &[u8; 32]) -> (keys: GeneratedKeySet)
        ensures
            is_ed25519_key_set(keys, seed@),
            generated_for(TextSignFormat::Ed25519, keys),
            keys.names_distinct(),
    {
        let public_key = derive_public_key(seed);
        let sk = vstd::slice::slice_to_vec(seed.as_slice());
        let pk = vstd::slice::slice_to_vec(public_key.as_slice());
        let mut artifacts: Vec<KeyArtifact> = Vec::new();
        artifacts.push(KeyArtifact { name: "ed25519.sk", bytes: sk });
        artifacts.push(KeyArtifact { name: "ed25519.pk", bytes: pk });
        let keys = GeneratedKeySet { artifacts };
        proof {
            reveal_strlit("ed25519.sk");
            reveal_strlit("ed25519.pk");
            assert("ed25519.sk"@[8] != "ed25519.pk"@[8]);
            assert(keys.entries() =~= seq![
                ("ed25519.sk"@, seed@),
                ("ed25519.pk"@, ed25519_public_key(seed@)@),
            ]);
        }
        keys
    }
}

impl KeyGenerator for Ed25519Signer {
    open spec fn generated(keys: GeneratedKeySet) -> bool {
        generated_for(TextSignFormat::Ed25519, keys)
    }

    fn generate() -> (keys: GeneratedKeySet) {
        let seed = random_bytes::<32>();
        Ed25519Signer::generate_from_seed(&seed)
    }
}

/// Makes fresh keys for `format`: one key for the keyed hash, a private and
/// a public key for signatures.
pub fn process_text_key_generate(format: TextSignFormat) -> (keys: GeneratedKeySet)
    ensures
        generated_for(format, keys),
        keys.names_distinct(),
{
    match format {
        TextSignFormat::Blake3 => Blake3::generate(),
        TextSignFormat::Ed25519 => Ed25519Signer::generate(),
    }
}

/// A generated keyed-hash key is accepted as a key buffer.
pub proof fn lemma_generated_key_is_accepted(keys: GeneratedKeySet)
    requires
        generated_for(TextSignFormat::Blake3, keys),
    ensures
        normalized(keys.entries()[0].1) is Ok,
{
}

/// The public key of a generated pair checks what its private key signs.
pub proof fn lemma_generated_pair_belongs_together(keys: GeneratedKeySet)
    requires
        generated_for(TextSignFormat::Ed25519, keys),
    ensures
        checks_for(TextSignFormat::Ed25519, keys.entries()[0].1, keys.entries()[1].1),
{
    let seed = keys.entries()[0].1;
    let public_key = keys.entries()[1].1;
    assert(seed.subrange(0, KEY_LEN as int) =~= seed);
    assert(public_key.subrange(0, KEY_LEN as int) =~= public_key);
}

} // verus!
