//! Options of the `jwt` commands.

use vstd::prelude::*;

verus! {

/// The `jwt` commands.
#[derive(Debug, Clone, PartialEq, Eq)]
pub enum JwtSubCommand {
    /// Sign a token.
    Sign(JwtSignOpts),
    /// Verify a token.
    Verify(JwtVerifyOpts),
}

/// The claims of a token to sign.
#[derive(Debug, Clone, PartialEq, Eq)]
pub struct JwtSignOpts {
    /// Subject (`sub` claim).
    pub sub: String,
    /// Audience (`aud` claim).
    pub aud: String,
    /// Time to live, such as `14d`, `1h` or `30m`.
    pub exp: String,
    /// HS256 shared secret; the environment stands in when it is omitted.
    pub secret: Option<String>,
}

/// The token to verify.
#[derive(Debug, Clone, PartialEq, Eq)]
pub struct JwtVerifyOpts {
    /// The token.
    pub token: String,
    /// Expected audience (`aud` claim).
    pub aud: String,
    /// HS256 shared secret; the environment stands in when it is omitted.
    pub secret: Option<String>,
}

} // verus!
