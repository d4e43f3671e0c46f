//! The master key: where it is read from, and what makes it a key.
//!
//! The key is read once, when the process starts, and handed to the cipher
//! from then on. Reading the environment and the file is the caller's part;
//! what is decided here is which file, and whether its contents are a key.

use crate::sentry::error::{Error, ErrorKind};
use vstd::prelude::*;
use vstd::utf8::{decode_utf8, valid_utf8};

verus! {

/// The file that holds the master key when the environment names none.
pub const DEFAULT_KEY_FILE: &'static str = "./warden.key";

/// The name of the variable in the environment that names the key file.
pub const KEY_FILE_VARIABLE: &'static str = "MASTER_ASAP_KEY";

/// The file to read the master key from: the one that the environment
/// names, or the default.
pub fn key_file_path(configured: Option<String>) -> (path: String)
    ensures
        configured matches Some(named) ==> path@ == named@,
        configured is None ==> path@ == DEFAULT_KEY_FILE@,
{
    match configured {
        Some(named) => named,
        None => DEFAULT_KEY_FILE.to_owned(),
    }
}

/// `String::from_utf8` of the standard library: the text that the bytes
/// encode, if they are UTF-8, and nothing otherwise.
#[verifier::external_body]
fn text_of(bytes: Vec<u8>) -> (text: Option<String>)
    ensures
        text is Some <==> valid_utf8(bytes@),
        text matches Some(t) ==> t@ == decode_utf8(bytes@),
{
    String::from_utf8(bytes).ok()
}

/// The number of bits in a key of so many bytes.
pub fn key_bits(bytes: usize) -> (bits: u128)
    ensures
        bits == bytes * 8,
{
    (bytes as u128) * 8
}

/// The master key that the contents of the key file are: their text.
/// Contents that are not UTF-8 are no key.
pub fn master_key(contents: Vec<u8>) -> (key: Result<String, Error>)
    ensures
        key is Ok <==> valid_utf8(contents@),
        key matches Ok(k) ==> k@ == decode_utf8(contents@),
        key matches Err(e) ==> e.inner is Config,
{
    match text_of(contents) {
        Some(text) => Ok(text),
        None => Err(Error { inner: ErrorKind::Config }),
    }
}

} // verus!
