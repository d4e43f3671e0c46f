use warden::sentry::error::{Error, ErrorKind, ParseError};
use warden::sentry::secret::{key_bits, key_file_path, master_key};

#[test]
fn key_file_defaults_to_warden_key() {
    assert_eq!(key_file_path(None), "./warden.key");
    assert_eq!(key_file_path(Some("/etc/key".to_string())), "/etc/key");
}

#[test]
fn key_must_be_text() {
    assert_eq!(master_key(b"secret key\n".to_vec()).unwrap(), "secret key\n");
    assert_eq!(master_key(vec![]).unwrap(), "");
    assert_eq!(master_key("gr\u{fc}n".as_bytes().to_vec()).unwrap(), "gr\u{fc}n");
    let failed = master_key(vec![0xff, 0xfe]).unwrap_err();
    assert!(matches!(failed.kind(), ErrorKind::Config));
    assert_eq!(failed.message(), "Key material is missing or is not text");
}

#[test]
fn key_bits_are_eight_per_byte() {
    assert_eq!(key_bits(0), 0);
    assert_eq!(key_bits(32), 256);
}

#[test]
fn error_messages() {
    assert_eq!(Error::from(ErrorKind::HashConfigError).message(), "Hasher config error");
    assert_eq!(Error::from(ErrorKind::EnvVarEncoder).message(), "Base64 encode error");
    assert_eq!(Error::from(ErrorKind::FromFailure).message(), "Failure error");
    assert_eq!(Error::from(ErrorKind::IO).message(), "I/O error");
    assert_eq!(Error::from(ErrorKind::Hasher).message(), "Hash error");
    assert_eq!(
        Error::from(ErrorKind::VecLength { got: 3, expected: 16 }).message(),
        "Invalid Vector length: got 3, expected 16"
    );
    assert_eq!(Error::from("boom".to_string()).message(), "boom");
    assert!(matches!(Error::from("boom".to_string()).kind(), ErrorKind::Msg(_)));
}

#[test]
fn parse_errors_with_a_cause_equal_nothing() {
    assert!(ParseError::InvalidVecLen == ParseError::InvalidVecLen);
    assert!(ParseError::InvalidSlice == ParseError::InvalidSlice);
    assert!(ParseError::InvalidLen == ParseError::InvalidLen);
    assert!(ParseError::InvalidLen != ParseError::InvalidSlice);
    let decode = ParseError::from(base64::DecodeError::InvalidPadding);
    assert!(matches!(decode, ParseError::DecodeError(_)));
    assert!(decode != ParseError::from(base64::DecodeError::InvalidPadding));
    assert!(decode != ParseError::InvalidLen);
    assert!(ParseError::InvalidLen != decode);
}

#[test]
fn numbers_are_written_in_base_ten() {
    assert_eq!(warden::text::to_decimal(0), "0");
    assert_eq!(warden::text::to_decimal(7), "7");
    assert_eq!(warden::text::to_decimal(10), "10");
    assert_eq!(warden::text::to_decimal(65536), "65536");
    assert_eq!(warden::text::to_decimal(1_000_000_007), "1000000007");
    assert_eq!(warden::text::to_decimal(u64::MAX), "18446744073709551615");
}

#[test]
fn errors_from_fixed_messages_and_from_input_and_output() {
    let fixed = Error::from("fixed words");
    assert!(matches!(fixed.kind(), ErrorKind::Message("fixed words")));
    assert_eq!(fixed.message(), "fixed words");
    let io = Error::from(std::io::Error::new(std::io::ErrorKind::Other, "disk"));
    assert!(matches!(io.kind(), ErrorKind::IO));
    assert_eq!(io.message(), "I/O error");
}
