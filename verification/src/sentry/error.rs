//! Errors of the credential subsystem.

use crate::text::{decimal, to_decimal};
use vstd::prelude::*;
use vstd::std_specs::cmp::PartialEqSpecImpl;
use vstd::std_specs::convert::FromSpecImpl;
use vstd::string::StringExecFns;

verus! {

/// The error a base64 decoder reports. Nothing inside it is read here.
#[verifier::external_type_specification]
#[verifier::external_body]
pub struct ExDecodeError(base64::DecodeError);

/// The error the standard library reports for bytes that are not UTF-8.
#[verifier::external_type_specification]
#[verifier::external_body]
pub struct ExUtf8Error(std::str::Utf8Error);

/// Why an operation of the credential subsystem failed.
#[derive(Debug)]
pub enum ErrorKind {
    /// The password hasher was configured wrongly.
    HashConfigError,
    /// An error with an arbitrary message that is fixed in the program.
    Message(&'static str),
    /// An error with an arbitrary message.
    Msg(String),
    /// A secret from the environment could not be encoded.
    EnvVarEncoder,
    /// An error handed up from a collaborator.
    FromFailure,
    /// Reading or writing failed.
    IO,
    /// Hashing failed.
    Hasher,
    /// A vector did not have the length that was asked for.
    VecLength { got: usize, expected: usize },
    /// The key material is missing or is not text.
    Config,
    /// The token could not be signed; the text says why.
    Signing(String),
    /// The ciphertext is not base64, or was not made with this key.
    Decrypt,
}

/// An error of the credential subsystem.
#[derive(Debug)]
pub struct Error {
    pub inner: ErrorKind,
}

impl Error {
    /// Returns the error variant and contents.
    pub fn kind(&self) -> (kind: &ErrorKind)
        ensures
            *kind == self.inner,
    {
        &self.inner
    }

    /// The fixed text of a kind; a kind that carries a message, or numbers,
    /// has none.
    pub open spec fn fixed_text(kind: ErrorKind) -> Option<Seq<char>> {
        match kind {
            ErrorKind::HashConfigError => Some("Hasher config error"@),
            ErrorKind::Message(_) => None,
            ErrorKind::Msg(_) => None,
            ErrorKind::EnvVarEncoder => Some("Base64 encode error"@),
            ErrorKind::FromFailure => Some("Failure error"@),
            ErrorKind::IO => Some("I/O error"@),
            ErrorKind::Hasher => Some("Hash error"@),
            ErrorKind::VecLength { .. } => None,
            ErrorKind::Config => Some("Key material is missing or is not text"@),
            ErrorKind::Signing(_) => None,
            ErrorKind::Decrypt => Some("Ciphertext could not be decrypted"@),
        }
    }

    /// What the error reads as.
    pub open spec fn text(self) -> Seq<char> {
        match self.inner {
            ErrorKind::Message(m) => m@,
            ErrorKind::Msg(m) => m@,
            ErrorKind::Signing(m) => m@,
            ErrorKind::VecLength { got, expected } => length_text(got, expected),
            kind => Error::fixed_text(kind).unwrap(),
        }
    }

    /// What the error reads as.
    pub fn message(&self) -> (text: String)
        ensures
            text@ == self.text(),
    {
        match &self.inner {
            ErrorKind::HashConfigError => "Hasher config error".to_owned(),
            ErrorKind::Message(m) => (*m).to_owned(),
            ErrorKind::Msg(m) => m.clone(),
            ErrorKind::EnvVarEncoder => "Base64 encode error".to_owned(),
            ErrorKind::FromFailure => "Failure error".to_owned(),
            ErrorKind::IO => "I/O error".to_owned(),
            ErrorKind::Hasher => "Hash error".to_owned(),
            ErrorKind::VecLength { got, expected } => describe_length(*got, *expected),
            ErrorKind::Config => "Key material is missing or is not text".to_owned(),
            ErrorKind::Signing(m) => m.clone(),
            ErrorKind::Decrypt => "Ciphertext could not be decrypted".to_owned(),
        }
    }
}

/// The text for a vector of the wrong length.
pub open spec fn length_text(got: usize, expected: usize) -> Seq<char> {
    "Invalid Vector length: got "@ + decimal(got as nat) + ", expected "@ + decimal(
        expected as nat,
    )
}

/// The text for a vector of the wrong length.
fn describe_length(got: usize, expected: usize) -> (text: String)
    ensures
        text@ == length_text(got, expected),
{
    String::from_str("Invalid Vector length: got ").concat(
        to_decimal(got as u64).as_str(),
    ).concat(", expected ").concat(to_decimal(expected as u64).as_str())
}

impl From<ErrorKind> for Error {
    fn from(kind: ErrorKind) -> (error: Error) {
        Error { inner: kind }
    }
}

impl FromSpecImpl<ErrorKind> for Error {
    open spec fn obeys_from_spec() -> bool {
        true
    }

    open spec fn from_spec(kind: ErrorKind) -> Error {
        Error { inner: kind }
    }
}

impl From<&'static str> for Error {
    fn from(msg: &'static str) -> (error: Error) {
        Error { inner: ErrorKind::Message(msg) }
    }
}

impl FromSpecImpl<&'static str> for Error {
    open spec fn obeys_from_spec() -> bool {
        true
    }

    open spec fn from_spec(msg: &'static str) -> Error {
        Error { inner: ErrorKind::Message(msg) }
    }
}

impl From<std::io::Error> for Error {
    fn from(err: std::io::Error) -> (error: Error) {
        Error { inner: ErrorKind::IO }
    }
}

impl FromSpecImpl<std::io::Error> for Error {
    open spec fn obeys_from_spec() -> bool {
        true
    }

    open spec fn from_spec(err: std::io::Error) -> Error {
        Error { inner: ErrorKind::IO }
    }
}

impl From<String> for Error {
    fn from(msg: String) -> (error: Error) {
        Error { inner: ErrorKind::Msg(msg) }
    }
}

impl FromSpecImpl<String> for Error {
    open spec fn obeys_from_spec() -> bool {
        true
    }

    open spec fn from_spec(msg: String) -> Error {
        Error { inner: ErrorKind::Msg(msg) }
    }
}

/// Why a stored hash could not be parsed.
#[derive(Debug)]
pub enum ParseError {
    /// base64 decode error
    DecodeError(base64::DecodeError),
    /// Utf-8 string error
    Utf8(std::str::Utf8Error),
    /// vector length validator
    InvalidVecLen,
    /// slice validation
    InvalidSlice,
    /// byte size validation, of a salt or of a hash
    InvalidLen,
}

impl ParseError {
    /// Whether two parse errors count as equal: only the three errors
    /// without a cause do, each with itself.
    pub open spec fn same(self, other: ParseError) -> bool {
        match self {
            ParseError::InvalidVecLen => other is InvalidVecLen,
            ParseError::InvalidSlice => other is InvalidSlice,
            ParseError::InvalidLen => other is InvalidLen,
            ParseError::DecodeError(_) => false,
            ParseError::Utf8(_) => false,
        }
    }
}

impl PartialEq for ParseError {
    fn eq(&self, other: &Self) -> (same: bool) {
        match self {
            ParseError::InvalidVecLen => match other {
                ParseError::InvalidVecLen => true,
                _ => false,
            },
            ParseError::InvalidSlice => match other {
                ParseError::InvalidSlice => true,
                _ => false,
            },
            ParseError::InvalidLen => match other {
                ParseError::InvalidLen => true,
                _ => false,
            },
            ParseError::DecodeError(_) => false,
            ParseError::Utf8(_) => false,
        }
    }
}

impl PartialEqSpecImpl for ParseError {
    open spec fn obeys_eq_spec() -> bool {
        true
    }

    open spec fn eq_spec(&self, other: &ParseError) -> bool {
        self.same(*other)
    }
}

impl From<base64::DecodeError> for ParseError {
    fn from(err: base64::DecodeError) -> (error: ParseError) {
        ParseError::DecodeError(err)
    }
}

impl FromSpecImpl<base64::DecodeError> for ParseError {
    open spec fn obeys_from_spec() -> bool {
        true
    }

    open spec fn from_spec(err: base64::DecodeError) -> ParseError {
        ParseError::DecodeError(err)
    }
}

} // verus!
