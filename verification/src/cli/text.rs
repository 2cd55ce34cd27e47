//! Options of the `text` commands: signing, verifying and key generation.

use vstd::prelude::*;
use crate::error::InvalidFormat;
use crate::error::TextError;
use crate::process::b64::base64_bytes;
use crate::process::b64::base64_text;
use crate::process::b64::decode;
use crate::process::b64::encode;
use crate::process::text::process_text_sign;
use crate::process::text::process_text_verify;
use crate::process::text::sign_outcome;
use crate::process::text::verify_outcome;
use crate::strings::str_eq;
use crate::strings::trim;
use crate::strings::trimmed;

verus! {

/// The `text` commands.
#[derive(Debug, Clone, PartialEq, Eq)]
pub enum TextSubCommand {
    /// Sign a text.
    Sign(TextSignOpts),
    /// Verify a signature on a text.
    Verify(TextVerifyOpts),
    /// Generate a new key.
    Generate(TextKeyGenerateOpts),
}

/// What to sign, and with which key.
#[derive(Debug, Clone, PartialEq, Eq)]
pub struct TextSignOpts {
    /// A file name, or `-` for standard input.
    pub input: String,
    /// The file that holds the key.
    pub key: String,
    /// The algorithm.
    pub format: TextSignFormat,
}

/// What to verify, and with which key.
#[derive(Debug, Clone, PartialEq, Eq)]
pub struct TextVerifyOpts {
    /// A file name, or `-` for standard input.
    pub input: String,
    /// The file that holds the key.
    pub key: String,
    /// The signature, in URL-safe base64 without padding.
    pub sig: String,
    /// The algorithm.
    pub format: TextSignFormat,
}

impl TextSignOpts {
    /// What the command prints for the input `data` and the key buffer
    /// `key`: the tag or signature, in URL-safe base64 without padding.
    pub open spec fn sign_output(self, data: Seq<u8>, key: Seq<u8>) -> Result<
        Seq<char>,
        TextError,
    > {
        match sign_outcome(self.format, key, data) {
            Ok(sig) => Ok(base64_text(true, false, sig)),
            Err(e) => Err(e),
        }
    }

    /// Signs the input `data` with the key buffer `key` and encodes the
    /// result for printing.
    pub fn sign(&self, data: &[u8], key: &[u8]) -> (r: Result<String, TextError>)
        ensures
            match r {
                Ok(text) => self.sign_output(data@, key@) == Ok::<Seq<char>, TextError>(text@),
                Err(e) => self.sign_output(data@, key@) == Err::<Seq<char>, TextError>(e),
            },
    {
        match process_text_sign(data, key, self.format) {
            Ok(sig) => Ok(encode(true, false, sig.as_slice())),
            Err(e) => Err(e),
        }
    }
}

impl TextVerifyOpts {
    /// What the command prints for the input `data` and the key buffer
    /// `key`. The signature is decoded first, without the whitespace around
    /// it, so one that is not base64 is reported before a bad key is.
    pub open spec fn verify_output(self, data: Seq<u8>, key: Seq<u8>) -> Result<bool, TextError> {
        match base64_bytes(true, false, trimmed(self.sig@)) {
            Some(sig) => verify_outcome(self.format, key, data, sig),
            None => Err(TextError::SignatureNotBase64),
        }
    }

    /// Decodes the signature and checks it on the input `data` with the key
    /// buffer `key`.
    pub fn verify(&self, data: &[u8], key: &[u8]) -> (r: Result<bool, TextError>)
        ensures
            r == self.verify_output(data@, key@),
    {
        match decode(true, false, trim(self.sig.as_str())) {
            Some(sig) => process_text_verify(data, key, sig.as_slice(), self.format),
            None => Err(TextError::SignatureNotBase64),
        }
    }
}

/// Which keys to generate, and where to store them.
#[derive(Debug, Clone, PartialEq, Eq)]
pub struct TextKeyGenerateOpts {
    /// The algorithm.
    pub format: TextSignFormat,
    /// The directory in which the keys are stored.
    pub output: String,
}

/// The algorithm that produces and checks a tag or signature.
#[derive(Debug, Clone, Copy, PartialEq, Eq, Structural)]
pub enum TextSignFormat {
    /// BLAKE3 keyed hash under a shared 32-byte key; the tag has 32 bytes.
    Blake3,
    /// Ed25519 signature; a 32-byte seed signs, the 32-byte public key
    /// verifies, and the signature has 64 bytes.
    Ed25519,
}

impl TextSignFormat {
    /// The name by which the format is chosen on the command line.
    pub open spec fn name(self) -> Seq<char> {
        match self {
            TextSignFormat::Blake3 => "blake3"@,
            TextSignFormat::Ed25519 => "ed25519"@,
        }
    }

    /// The format's name.
    pub fn as_str(self) -> (name: &'static str)
        ensures
            name@ == self.name(),
    {
        match self {
            TextSignFormat::Blake3 => "blake3",
            TextSignFormat::Ed25519 => "ed25519",
        }
    }

    /// The format's name, as an owned string.
    pub fn to_string(self) -> (name: String)
        ensures
            name@ == self.name(),
    {
        self.as_str().to_owned()
    }
}

/// The format that a name stands for, if any.
pub open spec fn sign_format_named(name: Seq<char>) -> Result<TextSignFormat, InvalidFormat> {
    if name == "blake3"@ {
        Ok(TextSignFormat::Blake3)
    } else if name == "ed25519"@ {
        Ok(TextSignFormat::Ed25519)
    } else {
        Err(InvalidFormat)
    }
}

/// Reads a signing format from its name.
pub fn parse_format(format: &str) -> (r: Result<TextSignFormat, InvalidFormat>)
    ensures
        r == sign_format_named(format@),
{
    if str_eq(format, "blake3") {
        Ok(TextSignFormat::Blake3)
    } else if str_eq(format, "ed25519") {
        Ok(TextSignFormat::Ed25519)
    } else {
        Err(InvalidFormat)
    }
}

/// Every format is read back from its own name.
pub proof fn lemma_sign_format_name_parses(format: TextSignFormat)
    ensures
        sign_format_named(format.name()) == Ok::<TextSignFormat, InvalidFormat>(format),
{
    reveal_strlit("blake3");
    reveal_strlit("ed25519");
    assert("blake3"@.len() != "ed25519"@.len());
}

impl From<TextSignFormat> for &'static str {
    fn from(format: TextSignFormat) -> (name: Self) {
        match format {
            TextSignFormat::Blake3 => "blake3",
            TextSignFormat::Ed25519 => "ed25519",
        }
    }
}

impl vstd::std_specs::convert::FromSpecImpl<TextSignFormat> for &'static str {
    open spec fn obeys_from_spec() -> bool {
        true
    }

    open spec fn from_spec(format: TextSignFormat) -> Self {
        match format {
            TextSignFormat::Blake3 => "blake3",
            TextSignFormat::Ed25519 => "ed25519",
        }
    }
}

impl std::str::FromStr for TextSignFormat {
    type Err = InvalidFormat;

    fn from_str(s: &str) -> (r: Result<Self, Self::Err>)
        ensures
            r == sign_format_named(s@),
    {
        parse_format(s)
    }
}

} // verus!
