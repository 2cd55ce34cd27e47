//! Options of the `base64` commands.

use vstd::prelude::*;
use crate::error::InvalidFormat;
use crate::strings::str_eq;

verus! {

/// The `base64` commands.
#[derive(Debug, Clone, PartialEq, Eq)]
pub enum Base64SubCommand {
    /// Encode input to base64.
    Encode(Base64EncodeOpts),
    /// Decode base64 input.
    Decode(Base64DecodeOpts),
}

/// What to encode, and how.
#[derive(Debug, Clone, PartialEq, Eq)]
pub struct Base64EncodeOpts {
    /// A file name, or `-` for standard input.
    pub input: String,
    /// The alphabet.
    pub format: Base64Format,
}

/// What to decode, and how.
#[derive(Debug, Clone, PartialEq, Eq)]
pub struct Base64DecodeOpts {
    /// A file name, or `-` for standard input.
    pub input: String,
    /// The alphabet.
    pub format: Base64Format,
}

/// The base64 alphabet.
#[derive(Debug, Clone, Copy, PartialEq, Eq, Structural)]
pub enum Base64Format {
    /// `A-Z`, `a-z`, `0-9`, `+` and `/`.
    Standard,
    /// `A-Z`, `a-z`, `0-9`, `-` and `_`.
    UrlSafe,
}

impl Base64Format {
    /// The name by which the alphabet is chosen on the command line.
    pub open spec fn name(self) -> Seq<char> {
        match self {
            Base64Format::Standard => "standard"@,
            Base64Format::UrlSafe => "urlsafe"@,
        }
    }

    /// The alphabet's name.
    pub fn as_str(self) -> (name: &'static str)
        ensures
            name@ == self.name(),
    {
        match self {
            Base64Format::Standard => "standard",
            Base64Format::UrlSafe => "urlsafe",
        }
    }

    /// The alphabet's name, as an owned string.
    pub fn to_string(self) -> (name: String)
        ensures
            name@ == self.name(),
    {
        self.as_str().to_owned()
    }
}

/// The alphabet that a name stands for, if any.
pub open spec fn base64_format_named(name: Seq<char>) -> Result<Base64Format, InvalidFormat> {
    if name == "standard"@ {
        Ok(Base64Format::Standard)
    } else if name == "urlsafe"@ {
        Ok(Base64Format::UrlSafe)
    } else {
        Err(InvalidFormat)
    }
}

/// Reads an alphabet from its name.
pub fn parse_base64_format(format: &str) -> (r: Result<Base64Format, InvalidFormat>)
    ensures
        r == base64_format_named(format@),
{
    if str_eq(format, "standard") {
        Ok(Base64Format::Standard)
    } else if str_eq(format, "urlsafe") {
        Ok(Base64Format::UrlSafe)
    } else {
        Err(InvalidFormat)
    }
}

/// Every alphabet is read back from its own name.
pub proof fn lemma_base64_format_name_parses(format: Base64Format)
    ensures
        base64_format_named(format.name()) == Ok::<Base64Format, InvalidFormat>(format),
{
    reveal_strlit("standard");
    reveal_strlit("urlsafe");
    assert("standard"@.len() != "urlsafe"@.len());
}

impl From<Base64Format> for &'static str {
    fn from(format: Base64Format) -> (name: Self) {
        match format {
            Base64Format::Standard => "standard",
            Base64Format::UrlSafe => "urlsafe",
        }
    }
}

impl vstd::std_specs::convert::FromSpecImpl<Base64Format> for &'static str {
    open spec fn obeys_from_spec() -> bool {
        true
    }

    open spec fn from_spec(format: Base64Format) -> Self {
        match format {
            Base64Format::Standard => "standard",
            Base64Format::UrlSafe => "urlsafe",
        }
    }
}

impl std::str::FromStr for Base64Format {
    type Err = InvalidFormat;

    fn from_str(s: &str) -> (r: Result<Self, Self::Err>)
        ensures
            r == base64_format_named(s@),
    {
        parse_base64_format(s)
    }
}

} // verus!
