use rs_cli::cli::jwt::JwtSignOpts;
use rs_cli::cli::jwt::JwtVerifyOpts;
use rs_cli::process::jwt::parse_duration;
use rs_cli::process::jwt::process_jwt_sign;
use rs_cli::process::jwt::process_jwt_verify;
use rs_cli::process::jwt::resolve_secret;
use rs_cli::process::jwt::sign_at;
use rs_cli::process::jwt::JwtError;

const SECRET: &str = "averylongandsecurejwtsecretstring!!!";

#[test]
fn test_parse_duration() {
    assert_eq!(parse_duration("30s").unwrap(), 30);
    assert_eq!(parse_duration("5m").unwrap(), 300);
    assert_eq!(parse_duration("2h").unwrap(), 7200);
    assert_eq!(parse_duration("1d").unwrap(), 86400);
    assert_eq!(parse_duration("14d").unwrap(), 1_209_600);
}

#[test]
fn test_parse_duration_invalid() {
    assert!(parse_duration("").is_err());
    assert!(parse_duration("30").is_err());
    assert!(parse_duration("30x").is_err());
    assert!(parse_duration("abc").is_err());
}

#[test]
fn test_jwt_sign_and_verify() {
    let sign_opts = JwtSignOpts {
        sub: "acme".to_string(),
        aud: "device1".to_string(),
        exp: "1h".to_string(),
        secret: Some(SECRET.to_string()),
    };

    let token = process_jwt_sign(&sign_opts, &None).unwrap();
    assert!(!token.is_empty());

    let verify_opts = JwtVerifyOpts {
        token: token.clone(),
        aud: "device1".to_string(),
        secret: Some(SECRET.to_string()),
    };

    let is_valid = process_jwt_verify(&verify_opts, &None).unwrap();
    assert!(is_valid);
}

#[test]
fn test_jwt_verify_invalid_token() {
    let verify_opts = JwtVerifyOpts {
        token: "invalid.jwt.token".to_string(),
        aud: "device1".to_string(),
        secret: Some(SECRET.to_string()),
    };

    let is_valid = process_jwt_verify(&verify_opts, &None).unwrap();
    assert!(!is_valid);
}

#[test]
fn test_jwt_verify_malformed_token() {
    let verify_opts = JwtVerifyOpts {
        token: "not-a-jwt-at-all".to_string(),
        aud: "device1".to_string(),
        secret: Some(SECRET.to_string()),
    };

    let is_valid = process_jwt_verify(&verify_opts, &None).unwrap();
    assert!(!is_valid);
}

#[test]
fn test_resolve_secret_requires_length() {
    let short = Some("short".to_string());
    assert!(resolve_secret(&short, &None).is_err());
}

#[test]
fn test_resolve_secret_env_fallback() {
    let key = "averylongandsecurejwtsecretstring!!!";
    let resolved = resolve_secret(&None, &Some(key.to_string())).unwrap();
    assert_eq!(resolved, key.as_bytes());
}

#[test]
fn parse_duration_reports_each_error() {
    assert_eq!(parse_duration(""), Err(JwtError::EmptyDuration));
    assert_eq!(parse_duration("   "), Err(JwtError::EmptyDuration));
    assert_eq!(parse_duration("30"), Err(JwtError::MissingUnit));
    assert_eq!(parse_duration("abc"), Err(JwtError::InvalidNumber));
    assert_eq!(parse_duration("s"), Err(JwtError::InvalidNumber));
    assert_eq!(
        parse_duration("18446744073709551616s"),
        Err(JwtError::InvalidNumber)
    );
    assert_eq!(parse_duration("30x"), Err(JwtError::InvalidUnit));
    assert_eq!(parse_duration("30ss"), Err(JwtError::InvalidUnit));
    assert_eq!(parse_duration("3 0s"), Err(JwtError::InvalidUnit));
    assert_eq!(
        parse_duration("18446744073709551615m"),
        Err(JwtError::Overflow)
    );
}

#[test]
fn parse_duration_trims_and_takes_the_largest_values() {
    assert_eq!(parse_duration("  14d\n"), Ok(1_209_600));
    assert_eq!(parse_duration("\u{a0}7m\u{3000}"), Ok(420));
    assert_eq!(parse_duration("0s"), Ok(0));
    assert_eq!(parse_duration("007h"), Ok(25_200));
    assert_eq!(
        parse_duration("18446744073709551615s"),
        Ok(18_446_744_073_709_551_615)
    );
    assert_eq!(parse_duration("213503982334601d"), Ok(18_446_744_073_709_526_400));
    assert_eq!(parse_duration("213503982334602d"), Err(JwtError::Overflow));
}

#[test]
fn resolve_secret_reports_each_error() {
    let long = Some(SECRET.to_string());
    assert_eq!(
        resolve_secret(&Some(String::new()), &long),
        Err(JwtError::EmptySecret)
    );
    assert_eq!(
        resolve_secret(&Some("short".to_string()), &long),
        Err(JwtError::SecretTooShort)
    );
    assert_eq!(resolve_secret(&None, &None), Err(JwtError::MissingSecret));
    assert_eq!(
        resolve_secret(&None, &Some(String::new())),
        Err(JwtError::EmptyEnvSecret)
    );
    assert_eq!(
        resolve_secret(&None, &Some("short".to_string())),
        Err(JwtError::EnvSecretTooShort)
    );
    assert_eq!(
        resolve_secret(&long, &None),
        Ok(SECRET.as_bytes().to_vec())
    );
    let thirty_one = "a".repeat(31);
    let thirty_two = "a".repeat(32);
    assert_eq!(
        resolve_secret(&Some(thirty_one), &None),
        Err(JwtError::SecretTooShort)
    );
    assert!(resolve_secret(&Some(thirty_two), &None).is_ok());
}

#[test]
fn sign_at_is_a_function_of_its_arguments() {
    let opts = JwtSignOpts {
        sub: "acme".to_string(),
        aud: "device1".to_string(),
        exp: "1h".to_string(),
        secret: Some(SECRET.to_string()),
    };
    let first = sign_at(&opts, &None, 1_700_000_000).unwrap();
    let second = sign_at(&opts, &None, 1_700_000_000).unwrap();
    assert_eq!(first, second);
    assert_eq!(first.split('.').count(), 3);
    assert_eq!(
        first.split('.').next(),
        Some("eyJ0eXAiOiJKV1QiLCJhbGciOiJIUzI1NiJ9")
    );
    let later = sign_at(&opts, &None, 1_700_000_001).unwrap();
    assert_ne!(first, later);
    assert_eq!(
        sign_at(&opts, &None, u64::MAX - 3599),
        Err(JwtError::Overflow)
    );
}

#[test]
fn verify_refuses_another_audience_and_an_expired_token() {
    let opts = JwtSignOpts {
        sub: "acme".to_string(),
        aud: "device1".to_string(),
        exp: "1h".to_string(),
        secret: Some(SECRET.to_string()),
    };
    let token = process_jwt_sign(&opts, &None).unwrap();
    let other = JwtVerifyOpts {
        token: token.clone(),
        aud: "device2".to_string(),
        secret: Some(SECRET.to_string()),
    };
    assert_eq!(process_jwt_verify(&other, &None), Ok(false));
    let expired = sign_at(&opts, &None, 1_000_000_000).unwrap();
    let stale = JwtVerifyOpts {
        token: expired,
        aud: "device1".to_string(),
        secret: Some(SECRET.to_string()),
    };
    assert_eq!(process_jwt_verify(&stale, &None), Ok(false));
    let unkeyed = JwtVerifyOpts {
        token,
        aud: "device1".to_string(),
        secret: None,
    };
    assert_eq!(
        process_jwt_verify(&unkeyed, &None),
        Err(JwtError::MissingSecret)
    );
}
