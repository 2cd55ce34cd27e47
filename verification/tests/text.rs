use ed25519_dalek::SigningKey;
use rand::RngCore;
use rs_cli::cli::text::TextSignFormat;
use rs_cli::error::TextError;
use rs_cli::process::text::process_text_decrypt;
use rs_cli::process::text::process_text_encrypt;
use rs_cli::process::text::process_text_key_generate;
use rs_cli::process::text::process_text_sign;
use rs_cli::process::text::process_text_verify;
use rs_cli::process::text::Blake3;
use rs_cli::process::text::Ed25519Signer;
use rs_cli::process::text::Ed25519Verifier;
use chacha20poly1305::aead::Aead;
use chacha20poly1305::aead::KeyInit;
use ed25519_dalek::Signer;
use ed25519_dalek::Verifier;
use rs_cli::cli::genpass::GenPassOpts;
use rs_cli::cli::text::TextSignOpts;
use rs_cli::cli::text::TextVerifyOpts;
use rs_cli::keys::normalize_key;
use rs_cli::keys::KeyMaterial;
use rs_cli::keys::KeyRole;
use rs_cli::process::text::derive_chacha_key;
use rs_cli::process::text::encrypt_with_nonce;
use rs_cli::process::text::KeyGenerator;

#[test]
fn test_blake3_sign_verify() {
    let key = b"0123456789abcdefghijklmnopqrstuv\n";
    let blake3 = Blake3::try_new(&key[..]).unwrap();

    let data = b"hello world";
    let sig = blake3.sign(&data[..]);
    assert!(blake3.verify(&data[..], &sig).unwrap());
}

#[test]
fn test_ed25519_sign_verify() {
    let keys = process_text_key_generate(TextSignFormat::Ed25519);
    let sk = Ed25519Signer::try_new(keys.get("ed25519.sk").unwrap()).unwrap();
    let pk = Ed25519Verifier::try_new(keys.get("ed25519.pk").unwrap()).unwrap();

    let data = b"hello world";
    let sig = sk.sign(&data[..]);
    assert!(pk.verify(&data[..], &sig).unwrap());
}

#[test]
fn test_ed25519_with_trailing_newline() {
    let mut private_key_bytes = [0u8; 32];
    rand::rng().fill_bytes(&mut private_key_bytes);

    let sk = SigningKey::from_bytes(&private_key_bytes);
    let pk = sk.verifying_key();

    let mut sk_with_newline = sk.to_bytes().to_vec();
    sk_with_newline.push(b'\n');

    let mut pk_with_newline = pk.to_bytes().to_vec();
    pk_with_newline.push(b'\n');

    let signer = Ed25519Signer::try_new(&sk_with_newline).unwrap();
    let verifier = Ed25519Verifier::try_new(&pk_with_newline).unwrap();

    let data = b"test data";
    let sig = signer.sign(&data[..]);
    assert!(verifier.verify(&data[..], &sig).unwrap());
}

#[test]
fn test_ed25519_with_extra_bytes() {
    let mut private_key_bytes = [0u8; 32];
    rand::rng().fill_bytes(&mut private_key_bytes);

    let sk = SigningKey::from_bytes(&private_key_bytes);
    let pk = sk.verifying_key();

    let mut sk_with_extra = sk.to_bytes().to_vec();
    sk_with_extra.extend_from_slice(&[0xff; 8]);

    let mut pk_with_extra = pk.to_bytes().to_vec();
    pk_with_extra.extend_from_slice(&[0xff; 8]);

    let signer = Ed25519Signer::try_new(&sk_with_extra).unwrap();
    let verifier = Ed25519Verifier::try_new(&pk_with_extra).unwrap();

    let data = b"test data";
    let sig = signer.sign(&data[..]);
    assert!(verifier.verify(&data[..], &sig).unwrap());
}

#[test]
fn test_ed25519_key_too_short() {
    let short_key = vec![0u8; 20];

    let signer_result = Ed25519Signer::try_new(&short_key);
    assert!(signer_result.is_err());
    if let Err(e) = signer_result {
        assert!(e.to_string().contains("Key must be at least 32 bytes"));
    }

    let verifier_result = Ed25519Verifier::try_new(&short_key);
    assert!(verifier_result.is_err());
    if let Err(e) = verifier_result {
        assert!(e.to_string().contains("Key must be at least 32 bytes"));
    }
}

#[test]
fn test_blake3_with_extra_bytes() {
    let mut key_with_extra = vec![0u8; 40];
    for i in 0..40 {
        key_with_extra[i] = i as u8;
    }

    let blake3 = Blake3::try_new(&key_with_extra).unwrap();

    let data = b"test data";
    let sig = blake3.sign(&data[..]);
    assert!(blake3.verify(&data[..], &sig).unwrap());
}

#[test]
fn test_chacha_encrypt_decrypt_roundtrip() {
    let key = b"some passphrase";
    let ciphertext = process_text_encrypt(&b"secret message"[..], key).unwrap();
    assert!(ciphertext.len() > 12);
    let plaintext = process_text_decrypt(&ciphertext, key).unwrap();
    assert_eq!(plaintext, b"secret message");
}

#[test]
fn test_chacha_decrypt_wrong_key() {
    let key = b"correct key";
    let ciphertext = process_text_encrypt(&b"payload"[..], key).expect("encrypt");
    let result = process_text_decrypt(&ciphertext, b"wrong key");
    assert!(result.is_err());
}

#[test]
fn keyed_hash_golden_vector() {
    let key: Vec<u8> = (0u8..32).collect();
    let expected: [u8; 32] = [
        78, 191, 92, 247, 163, 42, 52, 83, 57, 17, 140, 162, 235, 166, 21, 1, 255, 46, 19, 207,
        228, 38, 120, 81, 101, 96, 170, 194, 152, 195, 218, 211,
    ];
    let tag = process_text_sign(b"hello world", &key, TextSignFormat::Blake3).unwrap();
    assert_eq!(tag, expected);
    let again = process_text_sign(b"hello world", &key, TextSignFormat::Blake3).unwrap();
    assert_eq!(again, expected);
    assert_eq!(
        process_text_verify(b"hello world", &key, &expected, TextSignFormat::Blake3),
        Ok(true)
    );
    assert_eq!(TextError::KeyTooShort.to_string(), "Key must be at least 32 bytes");
}

const FORMATS: [TextSignFormat; 2] = [TextSignFormat::Blake3, TextSignFormat::Ed25519];

fn key_pair(seed: [u8; 32]) -> (Vec<u8>, Vec<u8>) {
    let keys = Ed25519Signer::generate_from_seed(&seed);
    (
        keys.get("ed25519.sk").unwrap().clone(),
        keys.get("ed25519.pk").unwrap().clone(),
    )
}

#[test]
fn keyed_hash_round_trip() {
    let key: Vec<u8> = (0u8..32).collect();
    for message in [&b""[..], &b"a"[..], &b"hello world"[..], &[0u8; 1000][..]] {
        let tag = process_text_sign(message, &key, TextSignFormat::Blake3).unwrap();
        assert_eq!(tag.len(), 32);
        assert_eq!(
            process_text_verify(message, &key, &tag, TextSignFormat::Blake3),
            Ok(true)
        );
    }
}

#[test]
fn keyed_hash_is_the_keyed_hash_of_the_first_32_bytes() {
    let key: Vec<u8> = (100u8..140).collect();
    let mut fixed = [0u8; 32];
    fixed.copy_from_slice(&key[..32]);
    let tag = process_text_sign(b"message", &key, TextSignFormat::Blake3).unwrap();
    assert_eq!(tag, blake3::keyed_hash(&fixed, b"message").as_bytes());
    assert_ne!(tag, blake3::hash(b"message").as_bytes());
    assert_ne!(tag, &fixed[..]);
}

#[test]
fn signature_round_trip() {
    let (sk, pk) = key_pair([7u8; 32]);
    for message in [&b""[..], &b"hello world"[..], &[255u8; 300][..]] {
        let sig = process_text_sign(message, &sk, TextSignFormat::Ed25519).unwrap();
        assert_eq!(sig.len(), 64);
        assert_eq!(
            process_text_verify(message, &pk, &sig, TextSignFormat::Ed25519),
            Ok(true)
        );
    }
}

#[test]
fn signature_is_that_of_the_signing_key() {
    let seed = [9u8; 32];
    let (sk, pk) = key_pair(seed);
    let key = SigningKey::from_bytes(&seed);
    assert_eq!(sk, seed);
    assert_eq!(pk, key.verifying_key().to_bytes());
    let sig = process_text_sign(b"message", &sk, TextSignFormat::Ed25519).unwrap();
    assert_eq!(sig, key.sign(b"message").to_bytes());
    let theirs = ed25519_dalek::Signature::from_bytes(&key.sign(b"other").to_bytes());
    assert!(key.verifying_key().verify(b"other", &theirs).is_ok());
    assert_eq!(
        process_text_verify(b"other", &pk, &theirs.to_bytes(), TextSignFormat::Ed25519),
        Ok(true)
    );
}

#[test]
fn mismatched_message_is_false_not_an_error() {
    let key: Vec<u8> = (0u8..32).collect();
    let tag = process_text_sign(b"first", &key, TextSignFormat::Blake3).unwrap();
    assert_eq!(
        process_text_verify(b"second", &key, &tag, TextSignFormat::Blake3),
        Ok(false)
    );
    let (sk, pk) = key_pair([3u8; 32]);
    let sig = process_text_sign(b"first", &sk, TextSignFormat::Ed25519).unwrap();
    assert_eq!(
        process_text_verify(b"second", &pk, &sig, TextSignFormat::Ed25519),
        Ok(false)
    );
    let (_, other_pk) = key_pair([4u8; 32]);
    assert_eq!(
        process_text_verify(b"first", &other_pk, &sig, TextSignFormat::Ed25519),
        Ok(false)
    );
}

#[test]
fn keyed_hash_tag_of_another_length_is_malformed() {
    let key: Vec<u8> = (0u8..32).collect();
    let tag = process_text_sign(b"data", &key, TextSignFormat::Blake3).unwrap();
    let mut longer = tag.clone();
    longer.push(0);
    for candidate in [&tag[..31], &longer[..], &[][..], &[0u8; 64][..]] {
        assert_eq!(
            process_text_verify(b"data", &key, candidate, TextSignFormat::Blake3),
            Err(TextError::MalformedSignatureEncoding)
        );
    }
    let verifier = Blake3::try_new(&key).unwrap();
    assert_eq!(
        verifier.verify(b"data", &tag[..31]),
        Err(TextError::MalformedSignatureEncoding)
    );
    assert_eq!(verifier.verify(b"data", &[0u8; 32]), Ok(false));
    assert_eq!(verifier.verify(b"data", &tag), Ok(true));
    assert_eq!(
        process_text_verify(b"data", &key[..31], &tag[..31], TextSignFormat::Blake3),
        Err(TextError::KeyTooShort)
    );
}

#[test]
fn signature_of_another_length_is_malformed() {
    let (sk, pk) = key_pair([5u8; 32]);
    let sig = process_text_sign(b"data", &sk, TextSignFormat::Ed25519).unwrap();
    for candidate in [&sig[..63], &[][..], &[0u8; 65][..], &[0u8; 32][..]] {
        assert_eq!(
            process_text_verify(b"data", &pk, candidate, TextSignFormat::Ed25519),
            Err(TextError::MalformedSignatureEncoding)
        );
    }
    let verifier = Ed25519Verifier::try_new(&pk).unwrap();
    assert_eq!(
        verifier.verify(b"data", &sig[..10]),
        Err(TextError::MalformedSignatureEncoding)
    );
    assert_eq!(verifier.verify(b"data", &[0u8; 64]), Ok(false));
}

#[test]
fn public_key_that_does_not_decode_is_refused() {
    let mut refused = 0;
    for fill in 0u8..=255 {
        let candidate = [fill; 32];
        let ours = Ed25519Verifier::try_new(&candidate[..]);
        let theirs = ed25519_dalek::VerifyingKey::from_bytes(&candidate);
        assert_eq!(ours.is_ok(), theirs.is_ok());
        if let Err(e) = ours {
            refused += 1;
            assert_eq!(e, TextError::InvalidPublicKey);
            assert_eq!(
                process_text_verify(b"data", &candidate, &[0u8; 64], TextSignFormat::Ed25519),
                Err(TextError::InvalidPublicKey)
            );
            assert_eq!(
                process_text_verify(b"data", &candidate, &[0u8; 3], TextSignFormat::Ed25519),
                Err(TextError::InvalidPublicKey)
            );
        }
    }
    assert!(refused > 0);
}

#[test]
fn key_length_tolerance() {
    let exact: Vec<u8> = (0u8..32).collect();
    let mut newline = exact.clone();
    newline.push(0x0A);
    let mut padded = exact.clone();
    padded.extend_from_slice(&[0xFF; 8]);
    assert_eq!(normalize_key(&exact), normalize_key(&newline));
    assert_eq!(normalize_key(&exact), normalize_key(&padded));
    assert_eq!(normalize_key(&exact).unwrap().to_vec(), exact);
    for format in FORMATS {
        let base = process_text_sign(b"same message", &exact, format).unwrap();
        assert_eq!(
            process_text_sign(b"same message", &newline, format).unwrap(),
            base
        );
        assert_eq!(
            process_text_sign(b"same message", &padded, format).unwrap(),
            base
        );
    }
    let tag = process_text_sign(b"same message", &exact, TextSignFormat::Blake3).unwrap();
    assert_eq!(
        process_text_verify(b"same message", &padded, &tag, TextSignFormat::Blake3),
        Ok(true)
    );
    let mut changed = exact.clone();
    changed[31] ^= 1;
    assert_ne!(
        process_text_sign(b"same message", &changed, TextSignFormat::Blake3).unwrap(),
        tag
    );
}

#[test]
fn key_length_rejection() {
    let short = vec![0u8; 20];
    for format in FORMATS {
        assert_eq!(
            process_text_sign(b"data", &short, format),
            Err(TextError::KeyTooShort)
        );
        assert_eq!(
            process_text_verify(b"data", &short, &[0u8; 64], format),
            Err(TextError::KeyTooShort)
        );
        assert_eq!(
            process_text_sign(b"data", &[0u8; 31], format),
            Err(TextError::KeyTooShort)
        );
        assert_eq!(
            process_text_sign(b"data", &[], format),
            Err(TextError::KeyTooShort)
        );
        assert!(process_text_sign(b"data", &[0u8; 32], format).is_ok());
    }
    assert!(Blake3::try_new(&short).is_err());
    assert_eq!(normalize_key(&short), Err(TextError::KeyTooShort));
}

#[test]
fn key_material_by_role() {
    let buffer: Vec<u8> = (0u8..40).collect();
    for role in [
        KeyRole::KeyedHashKey,
        KeyRole::SigningSeed,
        KeyRole::VerifyingKeyBytes,
    ] {
        assert!(role.fixed());
        let material = KeyMaterial::normalize(&buffer, role).unwrap();
        assert_eq!(material.as_bytes(), &buffer[..32]);
        assert_eq!(material.key_role(), role);
        assert_eq!(
            KeyMaterial::normalize(&buffer[..31], role).err(),
            Some(TextError::KeyTooShort)
        );
    }
    assert!(!KeyRole::CipherPassphrase.fixed());
    let passphrase = KeyMaterial::normalize(&buffer, KeyRole::CipherPassphrase).unwrap();
    assert_eq!(passphrase.as_bytes(), &buffer[..]);
    let empty = KeyMaterial::normalize(&[], KeyRole::CipherPassphrase).unwrap();
    assert_eq!(empty.as_bytes(), &[] as &[u8]);
}

#[test]
fn blake3_new_takes_the_key_as_it_is() {
    let mut key = [0u8; 32];
    for i in 0..32 {
        key[i] = i as u8;
    }
    let direct = Blake3::new(key);
    let parsed = Blake3::try_new(&key[..]).unwrap();
    assert_eq!(direct.sign(b"x"), parsed.sign(b"x"));
    assert_eq!(direct.sign(b"x"), blake3::keyed_hash(&key, b"x").as_bytes());
    let signer = Ed25519Signer::new(&key);
    assert_eq!(
        signer.sign(b"x"),
        SigningKey::from_bytes(&key).sign(b"x").to_bytes()
    );
}

#[test]
fn encryption_round_trip() {
    let thirty_two = [b'k'; 32];
    let passphrases: [&[u8]; 5] = [b"", b"p", b"some passphrase", &thirty_two, &[1u8; 100]];
    let plaintexts: [&[u8]; 4] = [b"", b"x", b"secret message", &[0u8; 5000]];
    for passphrase in passphrases {
        for plaintext in plaintexts {
            let envelope = process_text_encrypt(plaintext, passphrase).unwrap();
            assert_eq!(envelope.len(), 12 + plaintext.len() + 16);
            assert_eq!(
                process_text_decrypt(&envelope, passphrase).unwrap(),
                plaintext
            );
        }
    }
}

#[test]
fn nonce_freshness() {
    let first = process_text_encrypt(b"payload", b"passphrase").unwrap();
    let second = process_text_encrypt(b"payload", b"passphrase").unwrap();
    assert_ne!(first, second);
    assert_ne!(first[..12], second[..12]);
}

#[test]
fn envelope_is_nonce_then_sealed_plaintext() {
    let nonce = [7u8; 12];
    let envelope = encrypt_with_nonce(b"payload", b"passphrase", &nonce).unwrap();
    assert_eq!(envelope[..12], nonce);
    let key = blake3::hash(b"passphrase");
    let cipher =
        chacha20poly1305::ChaCha20Poly1305::new(chacha20poly1305::Key::from_slice(key.as_bytes()));
    let sealed = cipher
        .encrypt(chacha20poly1305::Nonce::from_slice(&nonce), &b"payload"[..])
        .unwrap();
    assert_eq!(envelope[12..], sealed[..]);
    assert_ne!(&envelope[12..19], b"payload");
    assert_eq!(
        encrypt_with_nonce(b"payload", b"passphrase", &nonce).unwrap(),
        envelope
    );
    let other = encrypt_with_nonce(b"payload", b"passphrase", &[8u8; 12]).unwrap();
    assert_ne!(other, envelope);
    assert_eq!(process_text_decrypt(&envelope, b"passphrase").unwrap(), b"payload");
    let theirs = cipher
        .decrypt(chacha20poly1305::Nonce::from_slice(&nonce), &envelope[12..])
        .unwrap();
    assert_eq!(theirs, b"payload");
}

#[test]
fn derived_key_is_verbatim_at_32_bytes_and_a_hash_otherwise() {
    let exact = [b'k'; 32];
    assert_eq!(derive_chacha_key(&exact), exact);
    assert_eq!(
        derive_chacha_key(b"hello"),
        [
            234, 143, 22, 61, 179, 134, 130, 146, 94, 68, 145, 197, 229, 141, 75, 179, 80, 110,
            248, 193, 78, 183, 138, 134, 233, 8, 197, 98, 74, 103, 32, 15
        ]
    );
    assert_eq!(&derive_chacha_key(b""), blake3::hash(b"").as_bytes());
    assert_eq!(
        &derive_chacha_key(&[b'k'; 33]),
        blake3::hash(&[b'k'; 33]).as_bytes()
    );
    assert_eq!(
        &derive_chacha_key(&[b'k'; 31]),
        blake3::hash(&[b'k'; 31]).as_bytes()
    );
    let envelope = encrypt_with_nonce(b"payload", b"pass", &[0u8; 12]).unwrap();
    let hashed = derive_chacha_key(b"pass");
    assert_eq!(process_text_decrypt(&envelope, &hashed).unwrap(), b"payload");
}

#[test]
fn wrong_key_and_tampering_fail_authentication() {
    let envelope = process_text_encrypt(b"payload", b"first passphrase").unwrap();
    assert_eq!(
        process_text_decrypt(&envelope, b"second passphrase"),
        Err(TextError::AuthenticationFailed)
    );
    for i in 0..envelope.len() {
        let mut tampered = envelope.clone();
        tampered[i] ^= 0x01;
        assert_eq!(
            process_text_decrypt(&tampered, b"first passphrase"),
            Err(TextError::AuthenticationFailed)
        );
    }
    let mut truncated = envelope.clone();
    truncated.pop();
    assert_eq!(
        process_text_decrypt(&truncated, b"first passphrase"),
        Err(TextError::AuthenticationFailed)
    );
}

#[test]
fn short_ciphertext_rejection() {
    for len in 0..12 {
        assert_eq!(
            process_text_decrypt(&vec![0u8; len], b"passphrase"),
            Err(TextError::CiphertextTooShort)
        );
    }
    for len in 12..28 {
        assert_eq!(
            process_text_decrypt(&vec![0u8; len], b"passphrase"),
            Err(TextError::AuthenticationFailed)
        );
    }
}

#[test]
fn generated_keyed_hash_key() {
    let keys = process_text_key_generate(TextSignFormat::Blake3);
    assert_eq!(keys.len(), 1);
    assert_eq!(keys.artifact(0).name, "blake3.txt");
    assert!(keys.contains_key("blake3.txt"));
    assert!(!keys.contains_key("ed25519.sk"));
    assert_eq!(keys.get("missing"), None);
    let key = keys.get("blake3.txt").unwrap();
    assert_eq!(key, &keys.artifact(0).bytes);
    assert_eq!(key.len(), 32);
    let symbols = b"!@#$%^&*().<>?_+-=/";
    assert!(key.iter().all(|b| b.is_ascii_alphanumeric() || symbols.contains(b)));
    assert!(key.iter().any(|b| b.is_ascii_lowercase()));
    assert!(key.iter().any(|b| b.is_ascii_uppercase()));
    assert!(key.iter().any(|b| b.is_ascii_digit()));
    assert!(key.iter().any(|b| symbols.contains(b)));
    let tag = process_text_sign(b"data", key, TextSignFormat::Blake3).unwrap();
    assert_eq!(
        process_text_verify(b"data", key, &tag, TextSignFormat::Blake3),
        Ok(true)
    );
    let again = Blake3::generate();
    assert_ne!(again.get("blake3.txt"), keys.get("blake3.txt"));
    assert_eq!(GenPassOpts::get_default_opts().length, 12);
}

#[test]
fn generated_key_pair() {
    let keys = process_text_key_generate(TextSignFormat::Ed25519);
    assert_eq!(keys.len(), 2);
    assert_eq!(keys.artifact(0).name, "ed25519.sk");
    assert_eq!(keys.artifact(1).name, "ed25519.pk");
    let sk = keys.get("ed25519.sk").unwrap();
    let pk = keys.get("ed25519.pk").unwrap();
    assert_eq!(sk.len(), 32);
    assert_eq!(pk.len(), 32);
    let mut seed = [0u8; 32];
    seed.copy_from_slice(sk);
    assert_eq!(
        pk,
        &SigningKey::from_bytes(&seed).verifying_key().to_bytes()
    );
    assert_ne!(sk, pk);
    assert_eq!(keys.get("blake3.txt"), None);
    let again = Ed25519Signer::generate();
    assert_ne!(again.get("ed25519.sk"), keys.get("ed25519.sk"));
    let fixed = Ed25519Signer::generate_from_seed(&[1u8; 32]);
    let same = Ed25519Signer::generate_from_seed(&[1u8; 32]);
    assert_eq!(fixed.get("ed25519.sk"), same.get("ed25519.sk"));
    assert_eq!(fixed.get("ed25519.pk"), same.get("ed25519.pk"));
    assert_eq!(fixed.get("ed25519.sk").unwrap(), &vec![1u8; 32]);
}

#[test]
fn signature_as_text() {
    let key: Vec<u8> = (0u8..32).collect();
    let opts = TextSignOpts {
        input: "-".to_string(),
        key: "key.txt".to_string(),
        format: TextSignFormat::Blake3,
    };
    let text = opts.sign(b"hello world", &key).unwrap();
    assert_eq!(text, "Tr9c96MqNFM5EYyi66YVAf8uE8_kJnhRZWCqwpjD2tM");
    assert_eq!(text.len(), 43);
    let verify = TextVerifyOpts {
        input: "-".to_string(),
        key: "key.txt".to_string(),
        sig: format!("  {}\n", text),
        format: TextSignFormat::Blake3,
    };
    assert_eq!(verify.verify(b"hello world", &key), Ok(true));
    assert_eq!(verify.verify(b"hello there", &key), Ok(false));
    assert_eq!(
        verify.verify(b"hello world", &key[..20]),
        Err(TextError::KeyTooShort)
    );
    let padded = TextVerifyOpts {
        sig: format!("{}=", text),
        ..verify.clone()
    };
    assert_eq!(
        padded.verify(b"hello world", &key),
        Err(TextError::SignatureNotBase64)
    );
    assert_eq!(
        padded.verify(b"hello world", &key[..20]),
        Err(TextError::SignatureNotBase64)
    );
    let standard = TextVerifyOpts {
        sig: "Tr9c96MqNFM5EYyi66YVAf8uE8/kJnhRZWCqwpjD2tM".to_string(),
        ..verify.clone()
    };
    assert_eq!(
        standard.verify(b"hello world", &key),
        Err(TextError::SignatureNotBase64)
    );
    assert_eq!(
        opts.sign(b"hello world", &key[..20]),
        Err(TextError::KeyTooShort)
    );
}

#[test]
fn every_error_has_its_sentence() {
    assert_eq!(TextError::KeyTooShort.message(), "Key must be at least 32 bytes");
    assert_eq!(
        TextError::InvalidPublicKey.message(),
        "Key is not a valid public key"
    );
    assert_eq!(
        TextError::MalformedSignatureEncoding.message(),
        "Signature has the wrong length for the algorithm"
    );
    assert_eq!(
        TextError::AuthenticationFailed.message(),
        "Decryption failed: authentication failed"
    );
    assert_eq!(
        TextError::CiphertextTooShort.to_string(),
        "Ciphertext too short; expected nonce + payload"
    );
    assert_eq!(
        TextError::PlaintextTooLong.to_string(),
        "Encryption failed: plaintext too long"
    );
    assert_eq!(
        TextError::SignatureNotBase64.to_string(),
        "Signature is not URL-safe base64"
    );
}
