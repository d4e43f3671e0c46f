//! The symmetric cipher that turns a client identity into an audience claim.
//!
//! The cipher is AES with a 256-bit key in CBC mode; its output travels as
//! base64 text. The key is the process-wide master key, handed in by the
//! caller.

use magic_crypt::{MagicCrypt256, MagicCryptError, MagicCryptTrait};
use vstd::prelude::*;

verus! {

/// The error the cipher reports when it cannot decrypt.
#[verifier::external_type_specification]
#[verifier::external_body]
pub struct ExMagicCryptError(MagicCryptError);

/// The base64 text that the cipher makes of `plain` under `key`.
pub uninterp spec fn sealed(key: Seq<char>, plain: Seq<char>) -> Seq<char>;

/// The text that the cipher recovers from `text` under `key`, if it
/// recovers any.
pub uninterp spec fn opened(key: Seq<char>, text: Seq<char>) -> Option<Seq<char>>;

/// Whether `text` stands for `plain` alone under `key`: the cipher makes
/// something else of every other text.
pub open spec fn stands_for_only(text: Seq<char>, key: Seq<char>, plain: Seq<char>) -> bool {
    forall|other: Seq<char>| other != plain ==> #[trigger] sealed(key, other) != text
}

/// Whether a character belongs to the standard alphabet of base64.
pub open spec fn is_base64_digit(c: char) -> bool {
    ('A' <= c <= 'Z') || ('a' <= c <= 'z') || ('0' <= c <= '9') || c == '+' || c == '/'
}

/// Whether a text is standard base64 of at least one byte, padded: groups
/// of four characters of the alphabet, the last group filled up with one
/// or two equals signs where the bytes do not fill it.
pub open spec fn is_base64(text: Seq<char>) -> bool {
    &&& text.len() > 0
    &&& text.len() % 4 == 0
    &&& forall|i: int| 0 <= i < text.len() - 2 ==> is_base64_digit(#[trigger] text[i])
    &&& is_base64_digit(text[text.len() - 2]) || (text[text.len() - 2] == '=' && text[text.len()
        - 1] == '=')
    &&& is_base64_digit(text[text.len() - 1]) || text[text.len() - 1] == '='
}

/// `MagicCrypt256::new` with the key and no initialisation vector, then
/// `encrypt_str_to_base64` on it. The cipher is deterministic: the key is
/// hashed, the vector is zero, so the same key and text give the same
/// output, which `sealed` names. The output is the ciphertext, which is
/// never empty, in standard base64 with padding. As the output can be
/// decrypted, no two texts give the same output under one key.
#[verifier::external_body]
pub(crate) fn seal(key: &str, plain: &str) -> (text: String)
    ensures
        text@ == sealed(key@, plain@),
        is_base64(text@),
        stands_for_only(text@, key@, plain@),
{
    MagicCrypt256::new(key, None::<&[u8]>).encrypt_str_to_base64(plain)
}

/// Whether `plain` is what decryption owes for `text`: if `text` is what
/// the cipher made of some clear text under `key`, that clear text.
pub open spec fn undoes_sealing(
    key: Seq<char>,
    text: Seq<char>,
    plain: Result<String, MagicCryptError>,
) -> bool {
    forall|clear: Seq<char>|
        text == #[trigger] sealed(key, clear) ==> (plain matches Ok(p) && p@ == clear)
}

/// `MagicCrypt256::new` with the key and no initialisation vector, then
/// `decrypt_base64_to_string` on it. It fails when the text is not base64,
/// when the bytes are not a padded ciphertext of this key, and when what
/// comes out is not UTF-8; `opened` names what it recovers. Decryption
/// undoes encryption: on what `seal` made of a text under the same key it
/// gives that text back.
#[verifier::external_body]
pub(crate) fn open(key: &str, text: &str) -> (plain: Result<String, MagicCryptError>)
    ensures
        match plain {
            Ok(p) => opened(key@, text@) == Some(p@),
            Err(_) => opened(key@, text@) is None,
        },
        undoes_sealing(key@, text@, plain),
{
    MagicCrypt256::new(key, None::<&[u8]>).decrypt_base64_to_string(text)
}

} // verus!
