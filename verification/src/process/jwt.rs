//! JSON web tokens signed with HS256: lifetimes, secrets and claims.

use vstd::prelude::*;
use vstd::string::StrSliceExecFns;
use vstd::utf8::encode_utf8;
use crate::cli::jwt::JwtSignOpts;
use crate::cli::jwt::JwtVerifyOpts;
use crate::strings::opt_text;
use crate::strings::trim;
use crate::strings::trimmed;

verus! {

/// Why a token was not signed or checked.
#[derive(Clone, Copy, Debug, PartialEq, Eq, Structural)]
pub enum JwtError {
    /// The lifetime is empty.
    EmptyDuration,
    /// The lifetime is a number without a unit.
    MissingUnit,
    /// The lifetime does not start with a number that fits 64 bits.
    InvalidNumber,
    /// The unit of the lifetime is not one of `s`, `m`, `h`, `d`.
    InvalidUnit,
    /// The lifetime in seconds, or the time at which it ends, does not fit
    /// 64 bits.
    Overflow,
    /// The secret given is empty.
    EmptySecret,
    /// The secret given has fewer than 32 bytes.
    SecretTooShort,
    /// No secret was given and the environment holds none.
    MissingSecret,
    /// The secret in the environment is empty.
    EmptyEnvSecret,
    /// The secret in the environment has fewer than 32 bytes.
    EnvSecretTooShort,
    /// The clock is set before 1970.
    Clock,
    /// The token could not be encoded.
    Encoding,
}

/// Least number of bytes in an HS256 secret.
pub const MIN_SECRET_LEN: usize = 32;

/// Whether `c` is one of `0` to `9`.
pub open spec fn is_digit(c: char) -> bool {
    '0' <= c <= '9'
}

/// Number of digits that `s` starts with.
pub open spec fn leading_digits(s: Seq<char>) -> nat
    decreases s.len(),
{
    if s.len() > 0 && is_digit(s.first()) {
        1 + leading_digits(s.drop_first())
    } else {
        0
    }
}

/// The number that a string of digits denotes.
pub open spec fn decimal_value(digits: Seq<char>) -> nat
    decreases digits.len(),
{
    if digits.len() == 0 {
        0
    } else {
        10 * decimal_value(digits.drop_last()) + (digits.last() as u32 - '0' as u32) as nat
    }
}

/// Number of seconds in a unit of time.
pub open spec fn unit_seconds(unit: Seq<char>) -> Option<nat> {
    if unit == seq!['s'] {
        Some(1)
    } else if unit == seq!['m'] {
        Some(60)
    } else if unit == seq!['h'] {
        Some(3600)
    } else if unit == seq!['d'] {
        Some(86400)
    } else {
        None
    }
}

/// The number of seconds that a lifetime such as `14d`, `1h` or `30m`
/// stands for. Whitespace around it is ignored; the number is decimal and
/// the unit one of `s`, `m`, `h` and `d`.
pub open spec fn duration_of(text: Seq<char>) -> Result<u64, JwtError> {
    let t = trimmed(text);
    let k = leading_digits(t) as int;
    if t.len() == 0 {
        Err(JwtError::EmptyDuration)
    } else if k == t.len() {
        Err(JwtError::MissingUnit)
    } else if k == 0 || decimal_value(t.subrange(0, k)) > u64::MAX {
        Err(JwtError::InvalidNumber)
    } else {
        match unit_seconds(t.subrange(k, t.len() as int)) {
            None => Err(JwtError::InvalidUnit),
            Some(factor) => if decimal_value(t.subrange(0, k)) * factor > u64::MAX {
                Err(JwtError::Overflow)
            } else {
                Ok((decimal_value(t.subrange(0, k)) * factor) as u64)
            },
        }
    }
}

/// The digits that `s` starts with end at the first character that is none.
proof fn lemma_leading_digits(s: Seq<char>, k: int)
    requires
        0 <= k <= s.len(),
        forall|i: int| 0 <= i < k ==> is_digit(#[trigger] s[i]),
        k < s.len() ==> !is_digit(s[k]),
    ensures
        leading_digits(s) == k,
    decreases k,
{
    if k > 0 {
        let rest = s.drop_first();
        assert forall|i: int| 0 <= i < k - 1 implies is_digit(#[trigger] rest[i]) by {
            assert(rest[i] == s[i + 1]);
        }
        assert(k - 1 < rest.len() ==> rest[k - 1] == s[k]);
        lemma_leading_digits(rest, k - 1);
    }
}

/// Reads a lifetime such as `14d`, `1h` or `30m` as a number of seconds.
pub fn parse_duration(duration_str: &str) -> (r: Result<u64, JwtError>)
    ensures
        r == duration_of(duration_str@),
{
    let t = trim(duration_str);
    let n = t.unicode_len();
    if n == 0 {
        return Err(JwtError::EmptyDuration);
    }
    let mut k: usize = 0;
    let mut value: u64 = 0;
    let mut fits = true;
    while k < n
        invariant
            k <= n,
            n == t@.len(),
            forall|i: int| 0 <= i < k ==> is_digit(#[trigger] t@[i]),
            fits ==> value == decimal_value(t@.subrange(0, k as int)),
            !fits ==> decimal_value(t@.subrange(0, k as int)) > u64::MAX,
        ensures
            k <= n,
            k < n ==> !is_digit(t@[k as int]),
            forall|i: int| 0 <= i < k ==> is_digit(#[trigger] t@[i]),
            fits ==> value == decimal_value(t@.subrange(0, k as int)),
            !fits ==> decimal_value(t@.subrange(0, k as int)) > u64::MAX,
        decreases n - k,
    {
        let c = t.get_char(k);
        if !('0' <= c && c <= '9') {
            break ;
        }
        let digit: u64 = (c as u32 - '0' as u32) as u64;
        proof {
            let longer = t@.subrange(0, k + 1);
            assert(longer.drop_last() =~= t@.subrange(0, k as int));
            assert(longer.last() == c);
        }
        if fits {
            match value.checked_mul(10) {
                Some(tens) => match tens.checked_add(digit) {
                    Some(sum) => {
                        value = sum;
                    },
                    None => {
                        fits = false;
                    },
                },
                None => {
                    fits = false;
                },
            }
        }
        k += 1;
    }
    proof {
        lemma_leading_digits(t@, k as int);
    }
    if k == n {
        return Err(JwtError::MissingUnit);
    }
    if k == 0 || !fits {
        return Err(JwtError::InvalidNumber);
    }
    let ghost unit = t@.subrange(k as int, n as int);
    if n - k != 1 {
        assert(unit.len() != 1);
        assert(unit_seconds(unit) is None);
        return Err(JwtError::InvalidUnit);
    }
    let u = t.get_char(k);
    assert(unit =~= seq![u]);
    let factor: u64 = if u == 's' {
        1
    } else if u == 'm' {
        60
    } else if u == 'h' {
        3600
    } else if u == 'd' {
        86400
    } else {
        assert(seq![u] != seq!['s'] && seq![u] != seq!['m'] && seq![u] != seq!['h'] && seq![u]
            != seq!['d']) by {
            assert(seq![u][0] == u);
            assert(seq!['s'][0] == 's');
            assert(seq!['m'][0] == 'm');
            assert(seq!['h'][0] == 'h');
            assert(seq!['d'][0] == 'd');
        }
        return Err(JwtError::InvalidUnit);
    };
    assert(unit_seconds(unit) == Some(factor as nat)) by {
        assert(seq!['s'][0] == 's');
        assert(seq!['m'][0] == 'm');
        assert(seq!['h'][0] == 'h');
        assert(seq!['d'][0] == 'd');
        assert(unit[0] == u);
    }
    match value.checked_mul(factor) {
        Some(seconds) => Ok(seconds),
        None => Err(JwtError::Overflow),
    }
}

/// The claims of a token.
#[derive(Debug, Clone, PartialEq, Eq)]
pub struct Claims {
    /// Subject.
    pub sub: String,
    /// Audience.
    pub aud: String,
    /// Time at which the token expires, in seconds since 1970.
    pub exp: u64,
    /// Time at which the token was issued, in seconds since 1970.
    pub iat: u64,
}

/// The compact HS256 token that `jsonwebtoken` makes of these claims under
/// `secret`, if it makes one.
pub uninterp spec fn hs256_token(
    sub: Seq<char>,
    aud: Seq<char>,
    exp: u64,
    iat: u64,
    secret: Seq<u8>,
) -> Option<Seq<char>>;

/// The bytes of a secret: its UTF-8 encoding, provided it is not empty and
/// has at least 32 bytes. `given` tells a secret given on the command line
/// from one found in the environment.
pub open spec fn checked_secret(value: Seq<char>, given: bool) -> Result<Seq<u8>, JwtError> {
    if value.len() == 0 {
        Err(
            if given {
                JwtError::EmptySecret
            } else {
                JwtError::EmptyEnvSecret
            },
        )
    } else if encode_utf8(value).len() < MIN_SECRET_LEN {
        Err(
            if given {
                JwtError::SecretTooShort
            } else {
                JwtError::EnvSecretTooShort
            },
        )
    } else {
        Ok(encode_utf8(value))
    }
}

/// The secret to use: the one given, else the one of the environment.
pub open spec fn secret_of(given: Option<Seq<char>>, env: Option<Seq<char>>) -> Result<
    Seq<u8>,
    JwtError,
> {
    match given {
        Some(value) => checked_secret(value, true),
        None => match env {
            Some(value) => checked_secret(value, false),
            None => Err(JwtError::MissingSecret),
        },
    }
}

/// What signing yields at the time `now`.
pub open spec fn jwt_sign_outcome(opts: JwtSignOpts, env: Option<Seq<char>>, now: u64) -> Result<
    Seq<char>,
    JwtError,
> {
    match duration_of(opts.exp@) {
        Err(e) => Err(e),
        Ok(ttl) => match secret_of(opt_text(opts.secret), env) {
            Err(e) => Err(e),
            Ok(secret) => if now + ttl > u64::MAX {
                Err(JwtError::Overflow)
            } else {
                match hs256_token(opts.sub@, opts.aud@, (now + ttl) as u64, now, secret) {
                    Some(token) => Ok(token),
                    None => Err(JwtError::Encoding),
                }
            },
        },
    }
}

/// Calls `SystemTime::now` and `duration_since` of std for the seconds
/// since 1970. Nothing is known of the answer.
#[verifier::external_body]
fn get_current_timestamp() -> Result<u64, JwtError> {
    match std::time::SystemTime::now().duration_since(std::time::UNIX_EPOCH) {
        Ok(elapsed) => Ok(elapsed.as_secs()),
        Err(_) => Err(JwtError::Clock),
    }
}

/// Calls `jsonwebtoken::encode` with an HS256 header on a JSON object of
/// the four claims. The token is named [`hs256_token`].
#[verifier::external_body]
fn encode_hs256(claims: &Claims, secret: &[u8]) -> (token: Option<String>)
    ensures
        opt_text(token) == hs256_token(claims.sub@, claims.aud@, claims.exp, claims.iat, secret@),
{
    let mut body = serde_json::Map::new();
    body.insert("sub".to_string(), claims.sub.clone().into());
    body.insert("aud".to_string(), claims.aud.clone().into());
    body.insert("exp".to_string(), claims.exp.into());
    body.insert("iat".to_string(), claims.iat.into());
    let header = jsonwebtoken::Header::new(jsonwebtoken::Algorithm::HS256);
    jsonwebtoken::encode(&header, &body, &jsonwebtoken::EncodingKey::from_secret(secret)).ok()
}

/// Calls `jsonwebtoken::decode` with the default HS256 validation and the
/// one audience `aud`, and reads the four claims from what it returns. The
/// validation compares the expiry with the clock, so nothing is known of
/// the answer.
#[verifier::external_body]
fn decode_hs256(token: &str, aud: &str, secret: &[u8]) -> Option<Claims> {
    let mut validation = jsonwebtoken::Validation::new(jsonwebtoken::Algorithm::HS256);
    validation.set_audience(&[aud]);
    let key = jsonwebtoken::DecodingKey::from_secret(secret);
    let body = jsonwebtoken::decode::<serde_json::Value>(token, &key, &validation).ok()?.claims;
    Some(Claims {
        sub: body.get("sub")?.as_str()?.to_string(),
        aud: body.get("aud")?.as_str()?.to_string(),
        exp: body.get("exp")?.as_u64()?,
        iat: body.get("iat")?.as_u64()?,
    })
}

/// Checks one secret and returns its bytes.
fn check_secret(value: &str, given: bool) -> (r: Result<Vec<u8>, JwtError>)
    ensures
        match r {
            Ok(bytes) => checked_secret(value@, given) == Ok::<Seq<u8>, JwtError>(bytes@),
            Err(e) => checked_secret(value@, given) == Err::<Seq<u8>, JwtError>(e),
        },
{
    if value.is_empty() {
        return Err(if given { JwtError::EmptySecret } else { JwtError::EmptyEnvSecret });
    }
    let bytes = value.as_bytes();
    if bytes.len() < MIN_SECRET_LEN {
        return Err(if given { JwtError::SecretTooShort } else { JwtError::EnvSecretTooShort });
    }
    Ok(vstd::slice::slice_to_vec(bytes))
}

/// Chooses the HS256 secret: the one given, else `env_secret`, which is
/// what the environment holds. Either must be non-empty and have at least
/// 32 bytes.
pub fn resolve_secret(secret: &Option<String>, env_secret: &Option<String>) -> (r: Result<
    Vec<u8>,
    JwtError,
>)
    ensures
        match r {
            Ok(bytes) => secret_of(opt_text(*secret), opt_text(*env_secret)) == Ok::<
                Seq<u8>,
                JwtError,
            >(bytes@),
            Err(e) => secret_of(opt_text(*secret), opt_text(*env_secret)) == Err::<
                Seq<u8>,
                JwtError,
            >(e),
        },
{
    match secret {
        Some(value) => check_secret(value.as_str(), true),
        None => match env_secret {
            Some(value) => check_secret(value.as_str(), false),
            None => Err(JwtError::MissingSecret),
        },
    }
}

/// Signs a token that is issued at `now` and lives as long as the options
/// say.
pub fn sign_at(opts: &JwtSignOpts, env_secret: &Option<String>, now: u64) -> (r: Result<
    String,
    JwtError,
>)
    ensures
        match r {
            Ok(token) => jwt_sign_outcome(*opts, opt_text(*env_secret), now) == Ok::<
                Seq<char>,
                JwtError,
            >(token@),
            Err(e) => jwt_sign_outcome(*opts, opt_text(*env_secret), now) == Err::<
                Seq<char>,
                JwtError,
            >(e),
        },
{
    let ttl = match parse_duration(opts.exp.as_str()) {
        Ok(ttl) => ttl,
        Err(e) => {
            return Err(e);
        },
    };
    let secret = match resolve_secret(&opts.secret, env_secret) {
        Ok(secret) => secret,
        Err(e) => {
            return Err(e);
        },
    };
    let exp = match now.checked_add(ttl) {
        Some(exp) => exp,
        None => {
            return Err(JwtError::Overflow);
        },
    };
    let claims = Claims { sub: opts.sub.clone(), aud: opts.aud.clone(), exp, iat: now };
    match encode_hs256(&claims, secret.as_slice()) {
        Some(token) => Ok(token),
        None => Err(JwtError::Encoding),
    }
}

/// Signs a token that is issued now. `env_secret` is what the environment
/// holds as a secret.
///
/// Whatever the clock says, the outcome is that of [`sign_at`] for some
/// time.
pub fn process_jwt_sign(opts: &JwtSignOpts, env_secret: &Option<String>) -> (r: Result<
    String,
    JwtError,
>)
    ensures
        match r {
            Ok(token) => exists|now: u64| #[trigger]
                jwt_sign_outcome(*opts, opt_text(*env_secret), now) == Ok::<
                    Seq<char>,
                    JwtError,
                >(token@),
            Err(e) => e == JwtError::Clock || exists|now: u64| #[trigger]
                jwt_sign_outcome(*opts, opt_text(*env_secret), now) == Err::<
                    Seq<char>,
                    JwtError,
                >(e),
        },
{
    match get_current_timestamp() {
        Ok(now) => sign_at(opts, env_secret, now),
        Err(_) => Err(JwtError::Clock),
    }
}

/// Checks a token against the secret, the audience and the clock.
/// `env_secret` is what the environment holds as a secret.
///
/// Fails exactly when there is no usable secret. A token that is not
/// accepted is `Ok(false)`.
pub fn process_jwt_verify(opts: &JwtVerifyOpts, env_secret: &Option<String>) -> (r: Result<
    bool,
    JwtError,
>)
    ensures
        match secret_of(opt_text(opts.secret), opt_text(*env_secret)) {
            Ok(_) => r is Ok,
            Err(e) => r == Err::<bool, JwtError>(e),
        },
{
    match resolve_secret(&opts.secret, env_secret) {
        Ok(secret) => {
            let claims = decode_hs256(opts.token.as_str(), opts.aud.as_str(), secret.as_slice());
            Ok(claims.is_some())
        },
        Err(e) => Err(e),
    }
}

} // verus!
