//! Deciding on a token that came with a request.
//!
//! Fetching the signer's public key and checking the signature is the
//! caller's part, and comes first: claims are only ever looked at here when
//! the signature was found good.

use crate::exception::AuthenticationTokenProblemCategory;
use crate::sentry::cipher::sealed;
use crate::sentry::reading::{
    audience_in, claims_of, class_in, is_presented_in, is_readable, lifetime_in, Presented,
};
use crate::sentry::token::{Aud, TokenType, ValidatorConfig};
use vstd::prelude::*;

verus! {

/// The claims of a token that was accepted.
#[derive(Debug)]
pub struct Claims {
    /// Who issued the token.
    pub issuer: String,
    /// For whom the token is meant.
    pub audience: Aud,
    /// When the token was issued, in seconds.
    pub issued_at: i64,
    /// When the token expires, in seconds.
    pub expires_at: i64,
    /// The class of the token.
    pub token_type: TokenType,
}

/// What came with a request by way of a token.
#[derive(Debug)]
pub enum Bearer {
    /// No token at all.
    Absent,
    /// A token that does not have the shape of one, or whose signature is
    /// not good. Its claims are not known.
    Unverified,
    /// A token whose signature is good, and what it claims.
    Verified(Presented),
}

/// The class that a text names, if it names one.
pub open spec fn class_named(text: Option<String>) -> Option<TokenType> {
    match text {
        Some(label) => if label@ == TokenType::Normal.label() {
            Some(TokenType::Normal)
        } else if label@ == TokenType::Refresh.label() {
            Some(TokenType::Refresh)
        } else {
            None
        },
        None => None,
    }
}

/// Reads the class of a token from its text.
pub fn read_class(text: &Option<String>) -> (class: Option<TokenType>)
    ensures
        class == class_named(*text),
{
    match text {
        Some(label) => {
            if str::eq(label.as_str(), TokenType::Normal.as_str()) {
                Some(TokenType::Normal)
            } else if str::eq(label.as_str(), TokenType::Refresh.as_str()) {
                Some(TokenType::Refresh)
            } else {
                None
            }
        },
        None => None,
    }
}

/// Whether an audience names `expected`.
pub open spec fn names(audience: Aud, expected: Seq<char>) -> bool {
    match audience {
        Aud::One(a) => a@ == expected,
        Aud::Many(list) => exists|i: int| 0 <= i < list@.len() && (#[trigger] list@[i])@ == expected,
    }
}

/// What is wrong with what came with a request, if anything is: a missing
/// token is missing; a token that was not verified is malformed, whatever
/// it claims; a verified token is expired from the second of its expiry
/// on; one that is not meant for `expected`, or that names no class, is
/// malformed.
pub open spec fn problem_of(bearer: Bearer, expected: Seq<char>, now: i64) -> Option<
    AuthenticationTokenProblemCategory,
> {
    match bearer {
        Bearer::Absent => Some(AuthenticationTokenProblemCategory::Missing),
        Bearer::Unverified => Some(AuthenticationTokenProblemCategory::Malformed),
        Bearer::Verified(presented) => if now >= presented.expires_at {
            Some(AuthenticationTokenProblemCategory::Expired)
        } else if !names(presented.audience, expected) {
            Some(AuthenticationTokenProblemCategory::Malformed)
        } else if class_named(presented.class) is None {
            Some(AuthenticationTokenProblemCategory::Malformed)
        } else {
            None
        },
    }
}

/// Whether `claims` are the claims of what was presented, with its class
/// read.
pub open spec fn accepts(claims: Claims, presented: Presented) -> bool {
    &&& claims.issuer == presented.issuer
    &&& claims.audience == presented.audience
    &&& claims.issued_at == presented.issued_at
    &&& claims.expires_at == presented.expires_at
    &&& class_named(presented.class) == Some(claims.token_type)
}

/// Whether one of the texts is `expected`.
fn holds_text(list: &Vec<String>, expected: &str) -> (held: bool)
    ensures
        held == exists|i: int| 0 <= i < list@.len() && (#[trigger] list@[i])@ == expected@,
{
    let mut i: usize = 0;
    while i < list.len()
        invariant
            i <= list.len(),
            forall|j: int| 0 <= j < i ==> (#[trigger] list@[j])@ != expected@,
        decreases list.len() - i,
    {
        if str::eq(list[i].as_str(), expected) {
            assert(list@[i as int]@ == expected@);
            return true;
        }
        i += 1;
    }
    false
}

/// Whether an audience names `expected`.
pub fn audience_names(audience: &Aud, expected: &str) -> (named: bool)
    ensures
        named == names(*audience, expected@),
{
    match audience {
        Aud::One(a) => str::eq(a.as_str(), expected),
        Aud::Many(list) => holds_text(list, expected),
    }
}

/// What a token whose signature was found good comes to: what it claims,
/// if that can be read, and else a token that is as good as unverified.
pub fn bearer_of(token: &str) -> (bearer: Bearer)
    ensures
        match bearer {
            Bearer::Verified(presented) => is_presented_in(presented, token@),
            Bearer::Unverified => !is_readable(token@),
            Bearer::Absent => false,
        },
{
    match claims_of(token) {
        Some(presented) => Bearer::Verified(presented),
        None => Bearer::Unverified,
    }
}

/// Decides on what came with a request, at the time `now` in seconds: the
/// claims of a token that is verified, not expired, meant for this
/// resource server and of a known class, and else what is wrong.
pub fn verify(config: &ValidatorConfig, bearer: Bearer, now: i64) -> (verdict: Result<
    Claims,
    AuthenticationTokenProblemCategory,
>)
    ensures
        match verdict {
            Ok(claims) => (bearer matches Bearer::Verified(presented) && accepts(
                claims,
                presented,
            )) && problem_of(bearer, config.resource_server_audience@, now) is None,
            Err(problem) => problem_of(bearer, config.resource_server_audience@, now) == Some(
                problem,
            ),
        },
{
    match bearer {
        Bearer::Absent => Err(AuthenticationTokenProblemCategory::Missing),
        Bearer::Unverified => Err(AuthenticationTokenProblemCategory::Malformed),
        Bearer::Verified(presented) => {
            if now >= presented.expires_at {
                return Err(AuthenticationTokenProblemCategory::Expired);
            }
            if !audience_names(&presented.audience, config.resource_server_audience.as_str()) {
                return Err(AuthenticationTokenProblemCategory::Malformed);
            }
            match read_class(&presented.class) {
                None => Err(AuthenticationTokenProblemCategory::Malformed),
                Some(token_type) => Ok(
                    Claims {
                        issuer: presented.issuer,
                        audience: presented.audience,
                        issued_at: presented.issued_at,
                        expires_at: presented.expires_at,
                        token_type,
                    },
                ),
            }
        },
    }
}

/// A verified token for a client, sealed under a key, that names its class
/// is accepted until it expires by a resource server whose audience is
/// that client sealed under that key; a resource server whose audience
/// reads otherwise finds it malformed.
pub proof fn lemma_issued_token_validates(
    presented: Presented,
    client: Seq<char>,
    expected: Seq<char>,
    key: Seq<char>,
    now: i64,
)
    requires
        presented.audience matches Aud::One(a) && a@ == sealed(key, client),
        class_named(presented.class) is Some,
        now < presented.expires_at,
    ensures
        expected == client ==> problem_of(
            Bearer::Verified(presented),
            sealed(key, expected),
            now,
        ) is None,
        sealed(key, expected) != sealed(key, client) ==> problem_of(
            Bearer::Verified(presented),
            sealed(key, expected),
            now,
        ) == Some(AuthenticationTokenProblemCategory::Malformed),
{
}

/// A token that was issued for a client under a key, and that was read
/// once its signature was found good, lives the lifetime of its class; a
/// resource server whose audience is that client sealed under that key
/// accepts it until it expires and finds it expired from then on; a
/// resource server with any other audience finds it malformed until then.
pub proof fn lemma_issued_token_is_accepted(
    token: Seq<char>,
    presented: Presented,
    token_type: TokenType,
    client: Seq<char>,
    key: Seq<char>,
    expected: Seq<char>,
    now: i64,
)
    requires
        audience_in(token) == Some(sealed(key, client)),
        class_in(token) == Some(token_type.label()),
        lifetime_in(token) == Some(token_type.lifetime()),
        is_presented_in(presented, token),
    ensures
        presented.expires_at - presented.issued_at == token_type.lifetime(),
        class_named(presented.class) is Some,
        problem_of(Bearer::Verified(presented), sealed(key, client), now) == if now
            >= presented.expires_at {
            Some(AuthenticationTokenProblemCategory::Expired)
        } else {
            None
        },
        expected != sealed(key, client) && now < presented.expires_at ==> problem_of(
            Bearer::Verified(presented),
            expected,
            now,
        ) == Some(AuthenticationTokenProblemCategory::Malformed),
{
}

/// A token whose signature is not good is malformed whatever the time and
/// whoever it is meant for: nothing that it claims is looked at.
pub proof fn lemma_fails_closed(expected: Seq<char>, now: i64)
    ensures
        problem_of(Bearer::Unverified, expected, now) == Some(
            AuthenticationTokenProblemCategory::Malformed,
        ),
{
}

/// A verified token is expired from the second of its expiry on, whoever
/// it is meant for and whatever else it claims.
pub proof fn lemma_expired_is_rejected(presented: Presented, expected: Seq<char>, now: i64)
    requires
        presented.expires_at <= now,
    ensures
        problem_of(Bearer::Verified(presented), expected, now) == Some(
            AuthenticationTokenProblemCategory::Expired,
        ),
{
}

} // verus!
