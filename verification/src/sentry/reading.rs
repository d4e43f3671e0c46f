//! Reading what a compact token claims.
//!
//! A compact token is three parts joined by dots; the part in the middle is
//! the claims, a JSON object in base64 for URLs. Reading is for tokens
//! whose signature was found good: what an unsigned text claims is worth
//! nothing.

use crate::exception::text_of;
use crate::sentry::token::{is_token_part, is_url_safe, joined, Aud, TOKEN_TYPE_CLAIM};
use base64::Engine;
use vstd::prelude::*;
use vstd::string::StrSliceExecFns;

verus! {

/// The name of the claim that says who issued a token.
pub const ISSUER_CLAIM: &'static str = "iss";

/// The name of the claim that says for whom a token is meant.
pub const AUDIENCE_CLAIM: &'static str = "aud";

/// The name of the claim that says when a token was issued.
pub const ISSUED_AT_CLAIM: &'static str = "iat";

/// The name of the claim that says when a token expires.
pub const EXPIRY_CLAIM: &'static str = "exp";

/// Where the next dot stands in a text, looking from `from` on; the length
/// of the text if there is none.
pub open spec fn next_dot(text: Seq<char>, from: int) -> int
    decreases text.len() - from,
{
    if from < 0 || from >= text.len() {
        text.len() as int
    } else if text[from] == '.' {
        from
    } else {
        next_dot(text, from + 1)
    }
}

/// The part of a token that holds its claims: what stands between the two
/// dots of a text that has exactly two.
pub open spec fn claims_part(token: Seq<char>) -> Option<Seq<char>> {
    let first = next_dot(token, 0);
    let second = next_dot(token, first + 1);
    let third = next_dot(token, second + 1);
    if first < token.len() && second < token.len() && third >= token.len() {
        Some(token.subrange(first + 1, second))
    } else {
        None
    }
}

/// The bytes that a text in base64 for URLs, without padding, stands for,
/// if it is such a text.
pub uninterp spec fn base64url(text: Seq<char>) -> Option<Seq<u8>>;

/// The text that a JSON object holds under a name, if the bytes are a JSON
/// object and hold a text there.
pub uninterp spec fn text_claim(json: Seq<u8>, name: Seq<char>) -> Option<Seq<char>>;

/// The texts that a JSON object holds under a name, if the bytes are a
/// JSON object and hold a list of texts there.
pub uninterp spec fn texts_claim(json: Seq<u8>, name: Seq<char>) -> Option<Seq<Seq<char>>>;

/// The whole number that a JSON object holds under a name, if the bytes
/// are a JSON object and hold a number of 64 bits there.
pub uninterp spec fn number_claim(json: Seq<u8>, name: Seq<char>) -> Option<i64>;

/// The texts of a list of strings.
pub open spec fn texts_of(list: Seq<String>) -> Seq<Seq<char>> {
    list.map_values(|s: String| s@)
}

/// `decode` of the base64 engine for URLs without padding: the bytes that
/// the text stands for, or nothing if it is no such text. It depends on
/// the text alone.
#[verifier::external_body]
fn decode_base64url(text: &str) -> (bytes: Option<Vec<u8>>)
    ensures
        match bytes {
            Some(b) => base64url(text@) == Some(b@),
            None => base64url(text@) is None,
        },
{
    base64::engine::general_purpose::URL_SAFE_NO_PAD.decode(text).ok()
}

/// `serde_json::from_slice` to a JSON value, then `get` under the name and
/// `as_str` on what is there. It depends on the bytes and the name alone.
#[verifier::external_body]
fn json_text(json: &[u8], name: &str) -> (text: Option<String>)
    ensures
        match text {
            Some(t) => text_claim(json@, name@) == Some(t@),
            None => text_claim(json@, name@) is None,
        },
{
    serde_json::from_slice::<serde_json::Value>(json).ok()?.get(name)?.as_str().map(
        |s| s.to_owned(),
    )
}

/// `serde_json::from_slice` to a JSON value, then `get` under the name,
/// `as_array` on what is there and `as_str` on each item. It depends on
/// the bytes and the name alone.
#[verifier::external_body]
fn json_texts(json: &[u8], name: &str) -> (texts: Option<Vec<String>>)
    ensures
        match texts {
            Some(list) => texts_claim(json@, name@) == Some(texts_of(list@)),
            None => texts_claim(json@, name@) is None,
        },
{
    serde_json::from_slice::<serde_json::Value>(json).ok()?.get(name)?.as_array()?.iter().map(
        |v| v.as_str().map(|s| s.to_owned()),
    ).collect()
}

/// `serde_json::from_slice` to a JSON value, then `get` under the name and
/// `as_i64` on what is there. It depends on the bytes and the name alone.
#[verifier::external_body]
fn json_number(json: &[u8], name: &str) -> (number: Option<i64>)
    ensures
        number == number_claim(json@, name@),
{
    serde_json::from_slice::<serde_json::Value>(json).ok()?.get(name)?.as_i64()
}

/// The claims of a token as JSON, if the token has three parts and the
/// middle one is in base64 for URLs.
pub open spec fn claims_json(token: Seq<char>) -> Option<Seq<u8>> {
    match claims_part(token) {
        Some(part) => base64url(part),
        None => None,
    }
}

/// The text that a token claims under a name.
pub open spec fn claim_in(token: Seq<char>, name: Seq<char>) -> Option<Seq<char>> {
    match claims_json(token) {
        Some(json) => text_claim(json, name),
        None => None,
    }
}

/// The time, in seconds, that a token claims under a name.
pub open spec fn time_in(token: Seq<char>, name: Seq<char>) -> Option<i64> {
    match claims_json(token) {
        Some(json) => number_claim(json, name),
        None => None,
    }
}

/// The one audience that a token names.
pub open spec fn audience_in(token: Seq<char>) -> Option<Seq<char>> {
    claim_in(token, AUDIENCE_CLAIM@)
}

/// The several audiences that a token names.
pub open spec fn audiences_in(token: Seq<char>) -> Option<Seq<Seq<char>>> {
    match claims_json(token) {
        Some(json) => texts_claim(json, AUDIENCE_CLAIM@),
        None => None,
    }
}

/// The class that a token names, as text.
pub open spec fn class_in(token: Seq<char>) -> Option<Seq<char>> {
    claim_in(token, TOKEN_TYPE_CLAIM@)
}

/// The seconds from the issue of a token to its expiry.
pub open spec fn lifetime_in(token: Seq<char>) -> Option<int> {
    match (time_in(token, EXPIRY_CLAIM@), time_in(token, ISSUED_AT_CLAIM@)) {
        (Some(expiry), Some(issued)) => Some(expiry - issued),
        _ => None,
    }
}

/// What a token claims, as it stands in the token.
#[derive(Debug)]
pub struct Presented {
    /// Who issued the token.
    pub issuer: String,
    /// For whom the token is meant.
    pub audience: Aud,
    /// When the token was issued, in seconds.
    pub issued_at: i64,
    /// When the token expires, in seconds.
    pub expires_at: i64,
    /// The class of the token, as text, if the token names one.
    pub class: Option<String>,
}

/// Whether an audience is what a token names: the one audience, if the
/// token names one, and else the several.
pub open spec fn is_audience_in(audience: Aud, token: Seq<char>) -> bool {
    match audience {
        Aud::One(a) => audience_in(token) == Some(a@),
        Aud::Many(list) => audience_in(token) is None && audiences_in(token) == Some(
            texts_of(list@),
        ),
    }
}

/// Whether a token can be read: it has three parts, the middle one holds
/// a JSON object, and the object names an issuer, an audience or several,
/// and the times of issue and expiry.
pub open spec fn is_readable(token: Seq<char>) -> bool {
    &&& claim_in(token, ISSUER_CLAIM@) is Some
    &&& audience_in(token) is Some || audiences_in(token) is Some
    &&& time_in(token, ISSUED_AT_CLAIM@) is Some
    &&& time_in(token, EXPIRY_CLAIM@) is Some
}

/// Whether `presented` is what a token claims.
pub open spec fn is_presented_in(presented: Presented, token: Seq<char>) -> bool {
    &&& claim_in(token, ISSUER_CLAIM@) == Some(presented.issuer@)
    &&& is_audience_in(presented.audience, token)
    &&& time_in(token, ISSUED_AT_CLAIM@) == Some(presented.issued_at)
    &&& time_in(token, EXPIRY_CLAIM@) == Some(presented.expires_at)
    &&& class_in(token) == text_of(presented.class)
}

/// Where the next dot stands in a text, looking from `from` on.
fn find_dot(text: &str, from: usize) -> (at: usize)
    requires
        from <= text@.len(),
    ensures
        at == next_dot(text@, from as int),
        from <= at <= text@.len(),
{
    let length = text.unicode_len();
    let mut i = from;
    while i < length
        invariant
            from <= i <= length,
            length == text@.len(),
            next_dot(text@, from as int) == next_dot(text@, i as int),
        decreases length - i,
    {
        if text.get_char(i) == '.' {
            return i;
        }
        i += 1;
    }
    length
}

/// The part of a token that holds its claims.
fn middle_part(token: &str) -> (part: Option<&str>)
    ensures
        match part {
            Some(p) => claims_part(token@) == Some(p@),
            None => claims_part(token@) is None,
        },
{
    let length = token.unicode_len();
    let first = find_dot(token, 0);
    if first >= length {
        return None;
    }
    let second = find_dot(token, first + 1);
    if second >= length {
        return None;
    }
    let third = find_dot(token, second + 1);
    if third < length {
        return None;
    }
    Some(token.substring_char(first + 1, second))
}

/// Reads what a token claims. It is for a token whose signature was found
/// good. A text that is no token of three parts, or whose claims are no
/// JSON object with an issuer, an audience and the times of issue and
/// expiry, cannot be read.
pub fn claims_of(token: &str) -> (presented: Option<Presented>)
    ensures
        match presented {
            Some(p) => is_presented_in(p, token@),
            None => !is_readable(token@),
        },
{
    let part = match middle_part(token) {
        Some(part) => part,
        None => return None,
    };
    let json = match decode_base64url(part) {
        Some(json) => json,
        None => return None,
    };
    let issuer = match json_text(json.as_slice(), ISSUER_CLAIM) {
        Some(issuer) => issuer,
        None => return None,
    };
    let audience = match json_text(json.as_slice(), AUDIENCE_CLAIM) {
        Some(one) => Aud::One(one),
        None => match json_texts(json.as_slice(), AUDIENCE_CLAIM) {
            Some(many) => Aud::Many(many),
            None => return None,
        },
    };
    let issued_at = match json_number(json.as_slice(), ISSUED_AT_CLAIM) {
        Some(issued_at) => issued_at,
        None => return None,
    };
    let expires_at = match json_number(json.as_slice(), EXPIRY_CLAIM) {
        Some(expires_at) => expires_at,
        None => return None,
    };
    let class = json_text(json.as_slice(), TOKEN_TYPE_CLAIM);
    Some(Presented { issuer, audience, issued_at, expires_at, class })
}

/// The next dot is where the first dot from `from` on stands, or at the
/// end if there is none.
proof fn lemma_next_dot(text: Seq<char>, from: int, at: int)
    requires
        0 <= from <= at <= text.len(),
        forall|k: int| from <= k < at ==> text[k] != '.',
        at < text.len() ==> text[at] == '.',
    ensures
        next_dot(text, from) == at,
    decreases at - from,
{
    if from < at {
        lemma_next_dot(text, from + 1, at);
    }
}

/// The claims of a compact token are read from its middle part: of three
/// parts in base64 for URLs joined by dots, the part for the claims is the
/// second.
pub proof fn lemma_claims_stand_in_the_middle(
    header: Seq<char>,
    claims: Seq<char>,
    signature: Seq<char>,
)
    requires
        is_token_part(header),
        is_token_part(claims),
        is_token_part(signature),
    ensures
        claims_part(joined(header, claims, signature)) == Some(claims),
        claims_json(joined(header, claims, signature)) == base64url(claims),
{
    let token = joined(header, claims, signature);
    let first = header.len() as int;
    let second = first + 1 + claims.len();
    assert(token.len() == second + 1 + signature.len());
    assert forall|k: int| 0 <= k < first implies token[k] != '.' by {
        assert(token[k] == header[k]);
        assert(is_url_safe(header[k]));
    }
    assert(token[first] == '.');
    assert forall|k: int| first + 1 <= k < second implies token[k] != '.' by {
        assert(token[k] == claims[k - first - 1]);
        assert(is_url_safe(claims[k - first - 1]));
    }
    assert(token[second] == '.');
    assert forall|k: int| second + 1 <= k < token.len() implies token[k] != '.' by {
        assert(token[k] == signature[k - second - 1]);
        assert(is_url_safe(signature[k - second - 1]));
    }
    lemma_next_dot(token, 0, first);
    lemma_next_dot(token, first + 1, second);
    lemma_next_dot(token, second + 1, token.len() as int);
    assert(token.subrange(first + 1, second) =~= claims);
}

} // verus!
