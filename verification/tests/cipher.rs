use warden::sentry::error::ErrorKind;
use warden::sentry::token::{decrypt_aud, encrypt_aud_to_base64};

#[test]
fn round_trip_on_printable_ascii() {
    let mut all = String::new();
    for c in 32u8..127u8 {
        all.push(c as char);
    }
    let sealed = encrypt_aud_to_base64("0123456789abcdef", &all);
    assert_eq!(decrypt_aud("0123456789abcdef", &sealed).unwrap(), all);
    for c in 32u8..127u8 {
        let one = (c as char).to_string();
        let sealed = encrypt_aud_to_base64("k", &one);
        assert_eq!(decrypt_aud("k", &sealed).unwrap(), one);
    }
}

#[test]
fn round_trip_on_empty_and_long_text() {
    let sealed = encrypt_aud_to_base64("k", "");
    assert_eq!(decrypt_aud("k", &sealed).unwrap(), "");
    let long = "x".repeat(1000);
    let sealed = encrypt_aud_to_base64("k", &long);
    assert_eq!(decrypt_aud("k", &sealed).unwrap(), long);
}

#[test]
fn encryption_is_deterministic_and_depends_on_key() {
    let a = encrypt_aud_to_base64("key-one", "email@example.com");
    let b = encrypt_aud_to_base64("key-one", "email@example.com");
    let c = encrypt_aud_to_base64("key-two", "email@example.com");
    assert_eq!(a, b);
    assert_ne!(a, c);
}

#[test]
fn different_identities_seal_differently() {
    let a = encrypt_aud_to_base64("key", "a@example.com");
    let b = encrypt_aud_to_base64("key", "b@example.com");
    assert_ne!(a, b);
}

#[test]
fn text_that_is_not_base64_is_a_decrypt_error() {
    let failed = decrypt_aud("k", "not base64 at all!").unwrap_err();
    assert!(matches!(failed.kind(), ErrorKind::Decrypt));
    assert_eq!(failed.message(), "Ciphertext could not be decrypted");
}

#[test]
fn ciphertext_of_another_key_is_a_decrypt_error() {
    let sealed = encrypt_aud_to_base64("right key", "email@example.com");
    match decrypt_aud("wrong key", &sealed) {
        Err(failed) => assert!(matches!(failed.kind(), ErrorKind::Decrypt)),
        Ok(text) => assert_ne!(text, "email@example.com"),
    }
}

#[test]
fn truncated_ciphertext_is_a_decrypt_error() {
    let failed = decrypt_aud("k", "AAAA").unwrap_err();
    assert!(matches!(failed.kind(), ErrorKind::Decrypt));
}

fn is_padded_base64(text: &str) -> bool {
    let bytes = text.as_bytes();
    let digit = |b: u8| b.is_ascii_alphanumeric() || b == b'+' || b == b'/';
    !bytes.is_empty()
        && bytes.len() % 4 == 0
        && bytes[..bytes.len() - 2].iter().all(|b| digit(*b))
        && (digit(bytes[bytes.len() - 2])
            || (bytes[bytes.len() - 2] == b'=' && bytes[bytes.len() - 1] == b'='))
        && (digit(bytes[bytes.len() - 1]) || bytes[bytes.len() - 1] == b'=')
}

#[test]
fn ciphertext_is_padded_standard_base64() {
    for length in 0..50 {
        let sealed = encrypt_aud_to_base64("key", &"x".repeat(length));
        assert!(is_padded_base64(&sealed));
        assert!(sealed.len() >= 24);
    }
}
