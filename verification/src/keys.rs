//! Key buffers and the key material they stand for.
//!
//! A key file written by a text editor often ends in a newline, so every
//! fixed-key algorithm reads the first [`KEY_LEN`] bytes of the buffer it is
//! given and silently ignores the rest. This is deliberate. A buffer with
//! fewer bytes is refused. A cipher passphrase may have any length, zero
//! included; choosing a good one is the caller's responsibility.

use vstd::prelude::*;
use crate::bytes::prefix;
use crate::error::TextError;

verus! {

/// Number of bytes in an effective key.
pub const KEY_LEN: usize = 32;

/// The part of a key buffer that is used as the key.
pub open spec fn effective_key(bytes: Seq<u8>) -> Seq<u8>
    recommends
        bytes.len() >= KEY_LEN,
{
    bytes.subrange(0, KEY_LEN as int)
}

/// What normalizing a key buffer yields.
pub open spec fn normalized(bytes: Seq<u8>) -> Result<Seq<u8>, TextError> {
    if bytes.len() < KEY_LEN {
        Err(TextError::KeyTooShort)
    } else {
        Ok(effective_key(bytes))
    }
}

/// Cuts a key buffer down to its effective key.
pub fn normalize_key(bytes: &[u8]) -> (r: Result<[u8; 32], TextError>)
    ensures
        match r {
            Ok(key) => normalized(bytes@) == Ok::<Seq<u8>, TextError>(key@),
            Err(e) => normalized(bytes@) == Err::<Seq<u8>, TextError>(e),
        },
{
    if bytes.len() < KEY_LEN {
        return Err(TextError::KeyTooShort);
    }
    Ok(prefix::<32>(bytes))
}

/// What a key buffer is used for.
#[derive(Debug, Clone, Copy, PartialEq, Eq, Structural)]
pub enum KeyRole {
    /// The shared key of the keyed hash.
    KeyedHashKey,
    /// The seed of a signing key.
    SigningSeed,
    /// The bytes of a public key.
    VerifyingKeyBytes,
    /// The passphrase of the cipher.
    CipherPassphrase,
}

impl KeyRole {
    /// Whether keys of this role have exactly [`KEY_LEN`] bytes.
    pub open spec fn is_fixed(self) -> bool {
        self != KeyRole::CipherPassphrase
    }

    /// Whether keys of this role have exactly [`KEY_LEN`] bytes.
    pub fn fixed(self) -> (fixed: bool)
        ensures
            fixed == self.is_fixed(),
    {
        match self {
            KeyRole::CipherPassphrase => false,
            _ => true,
        }
    }
}

/// The bytes that a key buffer contributes in a role: the first 32 for a
/// fixed-key role, which needs as many, and all of them for a passphrase.
pub open spec fn material_of(bytes: Seq<u8>, role: KeyRole) -> Result<Seq<u8>, TextError> {
    if role.is_fixed() {
        normalized(bytes)
    } else {
        Ok(bytes)
    }
}

/// The bytes behind one cryptographic operation, in the role they play.
pub struct KeyMaterial {
    bytes: Vec<u8>,
    role: KeyRole,
}

impl KeyMaterial {
    /// The bytes that count.
    pub closed spec fn bytes(&self) -> Seq<u8> {
        self.bytes@
    }

    /// The role they play.
    pub closed spec fn role(&self) -> KeyRole {
        self.role
    }

    #[verifier::type_invariant]
    spec fn well_formed(&self) -> bool {
        self.role.is_fixed() ==> self.bytes@.len() == KEY_LEN
    }

    /// Takes from a key buffer what counts in the given role.
    pub fn normalize(bytes: &[u8], role: KeyRole) -> (r: Result<KeyMaterial, TextError>)
        ensures
            match r {
                Ok(material) => material_of(bytes@, role) == Ok::<Seq<u8>, TextError>(
                    material.bytes(),
                ) && material.role() == role,
                Err(e) => material_of(bytes@, role) == Err::<Seq<u8>, TextError>(e),
            },
    {
        if role.fixed() {
            match normalize_key(bytes) {
                Ok(key) => Ok(KeyMaterial { bytes: vstd::slice::slice_to_vec(key.as_slice()), role }),
                Err(e) => Err(e),
            }
        } else {
            Ok(KeyMaterial { bytes: vstd::slice::slice_to_vec(bytes), role })
        }
    }

    /// The bytes that count. A fixed-key role has exactly 32 of them.
    pub fn as_bytes(&self) -> (bytes: &[u8])
        ensures
            bytes@ == self.bytes(),
            self.role().is_fixed() ==> bytes@.len() == KEY_LEN,
    {
        proof {
            use_type_invariant(self);
        }
        self.bytes.as_slice()
    }

    /// The role the bytes play.
    pub fn key_role(&self) -> (role: KeyRole)
        ensures
            role == self.role(),
    {
        self.role
    }
}

/// Bytes after the 32nd of a key buffer change nothing in a fixed-key role.
pub proof fn lemma_material_ignores_trailing_bytes(bytes: Seq<u8>, extra: Seq<u8>, role: KeyRole)
    requires
        role.is_fixed(),
        bytes.len() >= KEY_LEN,
    ensures
        material_of(bytes + extra, role) == material_of(bytes, role),
{
    assert((bytes + extra).subrange(0, KEY_LEN as int) =~= bytes.subrange(0, KEY_LEN as int));
}

} // verus!
