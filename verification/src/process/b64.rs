//! Base64 encoding and decoding of whole inputs.

use vstd::prelude::*;
use vstd::string::StrSliceExecFns;
use vstd::utf8::decode_utf8;
use vstd::utf8::valid_utf8;
use base64::Engine;
use crate::cli::base64::Base64DecodeOpts;
use crate::cli::base64::Base64EncodeOpts;
use crate::cli::base64::Base64Format;
use crate::primitives::opt_bytes;
use crate::strings::string_from_utf8;
use crate::strings::trim;
use crate::strings::trimmed;

verus! {

/// Why an input was not encoded or decoded.
#[derive(Clone, Copy, Debug, PartialEq, Eq, Structural)]
pub enum Base64Error {
    /// The input is so long that its encoding has no length.
    InputTooLong,
    /// The input is not base64 in the alphabet chosen.
    InvalidInput,
}

/// What a base64 decoding holds.
#[derive(Debug, Clone, PartialEq, Eq)]
pub enum Decoded {
    /// Text: the decoded bytes are valid UTF-8.
    Text(String),
    /// Anything else.
    Binary(Vec<u8>),
}

/// The base64 encoding of `data` in the standard or the URL-safe alphabet,
/// with or without padding.
pub uninterp spec fn base64_text(url_safe: bool, padded: bool, data: Seq<u8>) -> Seq<char>;

/// The bytes that `text` decodes to in the standard or the URL-safe
/// alphabet, with padding required or forbidden, if it decodes.
pub uninterp spec fn base64_bytes(url_safe: bool, padded: bool, text: Seq<char>) -> Option<
    Seq<u8>,
>;

/// Number of characters in the base64 encoding of `len` bytes.
pub open spec fn base64_len(len: nat, padded: bool) -> nat {
    let whole = len / 3 * 4;
    if len % 3 == 0 {
        whole
    } else if padded {
        whole + 4
    } else if len % 3 == 1 {
        whole + 2
    } else {
        whole + 3
    }
}

/// Whether the length of the encoding of `len` bytes fits the machine.
pub open spec fn encodable_len(len: nat) -> bool {
    len / 3 * 4 + 4 <= usize::MAX
}

/// Calls `Engine::encode` of `base64` on the general-purpose engine of the
/// alphabet and padding asked for. The text is named [`base64_text`], and
/// its length is what the crate's `encoded_len` computes.
#[verifier::external_body]
pub(crate) fn encode(url_safe: bool, padded: bool, data: &[u8]) -> (text: String)
    requires
        encodable_len(data@.len()),
    ensures
        text@ == base64_text(url_safe, padded, data@),
        text@.len() == base64_len(data@.len(), padded),
{
    match (url_safe, padded) {
        (false, true) => base64::engine::general_purpose::STANDARD.encode(data),
        (false, false) => base64::engine::general_purpose::STANDARD_NO_PAD.encode(data),
        (true, true) => base64::engine::general_purpose::URL_SAFE.encode(data),
        (true, false) => base64::engine::general_purpose::URL_SAFE_NO_PAD.encode(data),
    }
}

/// Calls `Engine::decode` of `base64` on the general-purpose engine of the
/// alphabet and padding asked for. The outcome is named [`base64_bytes`].
#[verifier::external_body]
pub(crate) fn decode(url_safe: bool, padded: bool, text: &str) -> (data: Option<Vec<u8>>)
    ensures
        opt_bytes(data) == base64_bytes(url_safe, padded, text@),
{
    match (url_safe, padded) {
        (false, true) => base64::engine::general_purpose::STANDARD.decode(text).ok(),
        (false, false) => base64::engine::general_purpose::STANDARD_NO_PAD.decode(text).ok(),
        (true, true) => base64::engine::general_purpose::URL_SAFE.decode(text).ok(),
        (true, false) => base64::engine::general_purpose::URL_SAFE_NO_PAD.decode(text).ok(),
    }
}

/// Whether the length of the encoding of `len` bytes fits the machine.
pub(crate) fn is_encodable_len(len: usize) -> (ok: bool)
    ensures
        ok == encodable_len(len as nat),
{
    len / 3 <= (usize::MAX - 4) / 4
}

/// What encoding `data` yields: nothing for empty input, else its padded
/// base64 text in the alphabet chosen.
pub open spec fn encode_outcome(format: Base64Format, data: Seq<u8>) -> Result<
    Option<Seq<char>>,
    Base64Error,
> {
    if data.len() == 0 {
        Ok(None)
    } else if !encodable_len(data.len()) {
        Err(Base64Error::InputTooLong)
    } else {
        Ok(Some(base64_text(format == Base64Format::UrlSafe, true, data)))
    }
}

/// What decoding `text` yields: nothing where only whitespace is given,
/// else the bytes that the text without the whitespace around it decodes to.
pub open spec fn decode_outcome(format: Base64Format, text: Seq<char>) -> Result<
    Option<Seq<u8>>,
    Base64Error,
> {
    if trimmed(text).len() == 0 {
        Ok(None)
    } else {
        match base64_bytes(format == Base64Format::UrlSafe, true, trimmed(text)) {
            Some(data) => Ok(Some(data)),
            None => Err(Base64Error::InvalidInput),
        }
    }
}

/// Encodes the input `data` of an `encode` command. Empty input has no
/// encoding.
pub fn process_encode(opts: &Base64EncodeOpts, data: &[u8]) -> (r: Result<
    Option<String>,
    Base64Error,
>)
    ensures
        match r {
            Ok(Some(text)) => encode_outcome(opts.format, data@) == Ok::<
                Option<Seq<char>>,
                Base64Error,
            >(Some(text@)),
            Ok(None) => encode_outcome(opts.format, data@) == Ok::<
                Option<Seq<char>>,
                Base64Error,
            >(None),
            Err(e) => encode_outcome(opts.format, data@) == Err::<
                Option<Seq<char>>,
                Base64Error,
            >(e),
        },
{
    if data.len() == 0 {
        return Ok(None);
    }
    if !is_encodable_len(data.len()) {
        return Err(Base64Error::InputTooLong);
    }
    match opts.format {
        Base64Format::Standard => Ok(Some(encode(false, true, data))),
        Base64Format::UrlSafe => Ok(Some(encode(true, true, data))),
    }
}

/// Decodes the input `data` of a `decode` command. Whitespace around the
/// input is ignored, and input that holds nothing else decodes to nothing.
/// Decoded bytes that are valid UTF-8 come back as text.
pub fn process_decode(opts: &Base64DecodeOpts, data: &str) -> (r: Result<
    Option<Decoded>,
    Base64Error,
>)
    ensures
        match r {
            Ok(Some(Decoded::Text(text))) => decode_outcome(opts.format, data@) matches Ok(
                Some(bytes),
            ) && valid_utf8(bytes) && text@ == decode_utf8(bytes),
            Ok(Some(Decoded::Binary(raw))) => decode_outcome(opts.format, data@) == Ok::<
                Option<Seq<u8>>,
                Base64Error,
            >(Some(raw@)) && !valid_utf8(raw@),
            Ok(None) => decode_outcome(opts.format, data@) == Ok::<
                Option<Seq<u8>>,
                Base64Error,
            >(None),
            Err(e) => decode_outcome(opts.format, data@) == Err::<
                Option<Seq<u8>>,
                Base64Error,
            >(e),
        },
{
    let text = trim(data);
    if text.unicode_len() == 0 {
        return Ok(None);
    }
    let decoded = match opts.format {
        Base64Format::Standard => decode(false, true, text),
        Base64Format::UrlSafe => decode(true, true, text),
    };
    match decoded {
        Some(bytes) => match string_from_utf8(bytes) {
            Ok(text) => Ok(Some(Decoded::Text(text))),
            Err(raw) => Ok(Some(Decoded::Binary(raw))),
        },
        None => Err(Base64Error::InvalidInput),
    }
}

} // verus!
