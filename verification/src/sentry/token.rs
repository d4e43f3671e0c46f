//! Issuing signed, short-lived tokens and preparing their validation.

use crate::sentry::cipher::{is_base64, open, opened, seal, sealed, stands_for_only};
use crate::sentry::error::{Error, ErrorKind};
use crate::sentry::reading::{audience_in, claim_in, class_in, lifetime_in, ISSUER_CLAIM};
use asap::generator::Generator;
use asap::validator::{Validator, ValidatorBuilder};
use vstd::prelude::*;
use vstd::slice::slice_to_vec;
use vstd::std_specs::convert::{FromSpecImpl, TryFromSpecImpl};

verus! {

/// Name of the issuer for the token generating service.
pub const ISS: &'static str = "sessions";

/// Client data used for the audience of this resource server.
pub const AUD: &'static str = "email@example.com";

/// Path of the public key, as a key server serves it.
pub const KID: &'static str = "sessions01/1569901546-public.der";

/// Name of the claim that carries the class of a token.
pub const TOKEN_TYPE_CLAIM: &'static str = "TokenType";

/// Seconds a refresh token stays valid.
pub const REFRESH_LIFESPAN: i64 = 900;

/// Seconds a normal token stays valid.
pub const NORMAL_LIFESPAN: i64 = 3600;

/// The class of a token. It decides how long the token lives and is carried
/// in the token as a claim of its own.
#[derive(Clone, Copy, Debug, PartialEq, Eq, Structural)]
pub enum TokenType {
    /// Normal token is valid for 60 minutes
    Normal,
    /// Refresh token is valid for 15 minutes
    Refresh,
}

impl TokenType {
    /// The text that stands for this class inside a token.
    pub open spec fn label(self) -> Seq<char> {
        match self {
            TokenType::Normal => "Normal"@,
            TokenType::Refresh => "Refresh"@,
        }
    }

    /// Seconds between the issue of a token of this class and its expiry.
    pub open spec fn lifetime(self) -> int {
        match self {
            TokenType::Normal => 3600,
            TokenType::Refresh => 900,
        }
    }

    /// The text that stands for this class inside a token.
    pub fn as_str(self) -> (text: &'static str)
        ensures
            text@ == self.label(),
    {
        match self {
            TokenType::Normal => "Normal",
            TokenType::Refresh => "Refresh",
        }
    }

    /// Seconds between the issue of a token of this class and its expiry.
    pub fn lifespan(self) -> (seconds: i64)
        ensures
            seconds == self.lifetime(),
            seconds == 3600 || seconds == 900,
    {
        match self {
            TokenType::Normal => NORMAL_LIFESPAN,
            TokenType::Refresh => REFRESH_LIFESPAN,
        }
    }
}

impl From<TokenType> for &'static str {
    fn from(token_type: TokenType) -> (text: &'static str) {
        match token_type {
            TokenType::Normal => "Normal",
            TokenType::Refresh => "Refresh",
        }
    }
}

impl FromSpecImpl<TokenType> for &'static str {
    open spec fn obeys_from_spec() -> bool {
        true
    }

    open spec fn from_spec(token_type: TokenType) -> &'static str {
        match token_type {
            TokenType::Normal => "Normal",
            TokenType::Refresh => "Refresh",
        }
    }
}

/// Reads a class back from its text. Any other text is an error.
impl<'a> TryFrom<&'a str> for TokenType {
    type Error = &'a str;

    fn try_from(value: &'a str) -> (parsed: Result<TokenType, &'a str>) {
        if str::eq(value, "Normal") {
            Ok(TokenType::Normal)
        } else if str::eq(value, "Refresh") {
            Ok(TokenType::Refresh)
        } else {
            Err("Error while converting TokenType value to static string.")
        }
    }
}

impl<'a> TryFromSpecImpl<&'a str> for TokenType {
    open spec fn obeys_try_from_spec() -> bool {
        true
    }

    open spec fn try_from_spec(value: &'a str) -> Result<TokenType, &'a str> {
        if value@ == "Normal"@ {
            Ok(TokenType::Normal)
        } else if value@ == "Refresh"@ {
            Ok(TokenType::Refresh)
        } else {
            Err("Error while converting TokenType value to static string.")
        }
    }
}

/// The audience of a token: one encrypted identity, or several.
#[derive(Clone, Debug)]
pub enum Aud {
    /// A single audience.
    One(String),
    /// A list of audiences.
    Many(Vec<String>),
}

/// Claims beyond the standard ones, each a name and a text.
pub type ExtraClaims = Vec<(String, String)>;

/// What one token differs in from the other tokens of this service.
pub struct TokenRequest {
    /// Seconds from issue to expiry.
    pub lifespan: i64,
    /// For whom the token is meant.
    pub audience: Aud,
    /// The claims added to the standard ones.
    pub extra_claims: ExtraClaims,
}

impl TokenRequest {
    /// Whether this is the request for a token of class `token_type`, for
    /// the client `client_data`, with identities sealed under `master_key`.
    pub open spec fn is_for(
        self,
        token_type: TokenType,
        client_data: Seq<char>,
        master_key: Seq<char>,
    ) -> bool {
        &&& self.lifespan == token_type.lifetime()
        &&& self.audience matches Aud::One(a) && a@ == sealed(master_key, client_data)
        &&& carries_token_type(self.extra_claims, token_type)
    }
}

/// Whether the claims are the one claim that names the class of a token.
pub open spec fn carries_token_type(claims: ExtraClaims, token_type: TokenType) -> bool {
    &&& claims@.len() == 1
    &&& claims@[0].0@ == TOKEN_TYPE_CLAIM@
    &&& claims@[0].1@ == token_type.label()
}

/// What validating tokens for this resource server needs to know.
pub struct ValidatorConfig {
    /// Where public keys are fetched from, by key id.
    pub keyserver_uri: String,
    /// The audience that a token must name to be accepted here.
    pub resource_server_audience: String,
}

/// The builder of token validators. Nothing inside it is read here.
#[verifier::external_type_specification]
#[verifier::external_body]
pub struct ExValidatorBuilder(ValidatorBuilder);

/// The error the standard library uses for failed input and output.
#[verifier::external_type_specification]
#[verifier::external_body]
pub struct ExIoError(std::io::Error);

/// Encrypts the client data with AES of 256 bits under the master key,
/// encoded as standard base64.
pub fn encrypt_aud_to_base64(master_key: &str, client_data: &str) -> (aud_claims: String)
    ensures
        aud_claims@ == sealed(master_key@, client_data@),
        is_base64(aud_claims@),
        stands_for_only(aud_claims@, master_key@, client_data@),
{
    seal(master_key, client_data)
}

/// What `decrypt_aud` returns once the cipher has answered.
pub open spec fn decrypted(recovered: Option<Seq<char>>) -> Result<Seq<char>, ErrorKind> {
    match recovered {
        Some(plain) => Ok(plain),
        None => Err(ErrorKind::Decrypt),
    }
}

/// Takes a base64 text made by `encrypt_aud_to_base64` and decrypts it under
/// the master key. A text that is not base64, or that this key did not
/// make, is an error. Whatever was encrypted under a key comes back when
/// decrypted under the same key.
pub fn decrypt_aud(master_key: &str, audience_identifier: &str) -> (raw: Result<String, Error>)
    ensures
        match raw {
            Ok(plain) => decrypted(opened(master_key@, audience_identifier@)) == Ok::<
                Seq<char>,
                ErrorKind,
            >(plain@),
            Err(e) => decrypted(opened(master_key@, audience_identifier@)) == Err::<
                Seq<char>,
                ErrorKind,
            >(e.inner),
        },
        forall|client_data: Seq<char>|
            audience_identifier@ == #[trigger] sealed(master_key@, client_data) ==> (raw matches Ok(
                plain,
            ) && plain@ == client_data),
{
    match open(master_key, audience_identifier) {
        Ok(plain) => Ok(plain),
        Err(_) => Err(Error { inner: ErrorKind::Decrypt }),
    }
}

/// Converts client data to the audience of a token: the one encrypted
/// identity.
pub fn default_aud(master_key: &str, client_data: &str) -> (audience: Aud)
    ensures
        audience matches Aud::One(a) && a@ == sealed(master_key@, client_data@)
            && stands_for_only(a@, master_key@, client_data@),
{
    Aud::One(encrypt_aud_to_base64(master_key, client_data))
}

/// The extra claims of a token: the one that names its class.
pub fn set_token_type(token_type: TokenType) -> (extra_claims: Option<ExtraClaims>)
    ensures
        extra_claims matches Some(claims) && carries_token_type(claims, token_type),
{
    let mut extra_claims: ExtraClaims = Vec::new();
    extra_claims.push((TOKEN_TYPE_CLAIM.to_owned(), token_type.as_str().to_owned()));
    Some(extra_claims)
}

/// The error of the kind `NotFound` with the given message.
pub uninterp spec fn not_found_error(message: Seq<char>) -> std::io::Error;

/// `std::io::Error::new` with the kind `NotFound` and the given message;
/// the error is made of these two alone.
#[verifier::external_body]
fn not_found(message: &str) -> (error: std::io::Error)
    ensures
        error == not_found_error(message@),
{
    std::io::Error::new(std::io::ErrorKind::NotFound, message)
}

/// What is said when a token names no audience.
pub const NO_AUDIENCE: &'static str = "No audience found";

/// The audience that a token names: the only one, or the last of several.
pub open spec fn named_audience(data: Aud) -> Option<Seq<char>> {
    match data {
        Aud::One(audience) => Some(audience@),
        Aud::Many(audiences) => if audiences@.len() > 0 {
            Some(audiences@.last()@)
        } else {
            None
        },
    }
}

/// Extracts the audience from the claim of a token: the only one, or the
/// last of several. An empty list is an error of the kind `NotFound` that
/// says that no audience was found.
pub fn aud_from_json(data: &Aud) -> (audience: Result<String, std::io::Error>)
    ensures
        match audience {
            Ok(a) => named_audience(*data) == Some(a@),
            Err(e) => named_audience(*data) is None && e == not_found_error(NO_AUDIENCE@),
        },
{
    match data {
        Aud::One(audience) => Ok(audience.clone()),
        Aud::Many(audiences) => {
            if audiences.len() > 0 {
                Ok(audiences[audiences.len() - 1].clone())
            } else {
                Err(not_found(NO_AUDIENCE))
            }
        },
    }
}

/// Puts together what goes into a token of the given class for the given
/// client: the lifetime of the class, the encrypted identity as the only
/// audience, and the class as a claim.
pub fn token_request(token_type: TokenType, client_data: &str, master_key: &str) -> (request:
    TokenRequest)
    ensures
        request.is_for(token_type, client_data@, master_key@),
        request.lifespan == 3600 || request.lifespan == 900,
        stands_for_only(sealed(master_key@, client_data@), master_key@, client_data@),
{
    let extra_claims = match set_token_type(token_type) {
        Some(claims) => claims,
        None => Vec::new(),
    };
    TokenRequest {
        lifespan: token_type.lifespan(),
        audience: default_aud(master_key, client_data),
        extra_claims,
    }
}

/// The generator of signed tokens. Nothing inside it is read here.
#[verifier::external_type_specification]
#[verifier::external_body]
pub struct ExGenerator(Generator);

/// `Generator::new`: the generator that signs with the private key, for
/// the issuer and the key id; it is made of these three alone.
pub assume_specification[ Generator::new ](
    iss: String,
    kid: String,
    private_key: Vec<u8>,
) -> (generator: Generator)
    ensures
        generator == generator_for(iss@, kid@, private_key@),
;

/// `Generator::set_max_lifespan` with the lifespan, then `Generator::token`
/// with the audience and the extra claims, each claim as a JSON string,
/// and the error as its text. The token holds the time of the call and a
/// random identifier, so it has no name. What holds of every token: it is
/// header, claims and signature, each in base64 for URLs, joined by dots;
/// its expiry is the lifespan after its issue; it names the audience and
/// the issuer that the generator was made for; and it holds the extra
/// claim under its name. The lifespan is kept within the hour that the
/// protocol allows, which also keeps the expiry from overflowing.
#[verifier::external_body]
fn sign(generator: &Generator, lifespan: i64, audience: &Aud, extra_claims: &ExtraClaims) -> (token:
    Result<String, String>)
    requires
        0 <= lifespan <= 3600,
    ensures
        token matches Ok(t) ==> is_compact_token(t@),
        token matches Ok(t) ==> lifetime_in(t@) == Some(lifespan as int),
        token matches Ok(t) ==> is_issued_by(t@, *generator),
        token matches Ok(t) ==> (audience matches Aud::One(a) ==> audience_in(t@) == Some(a@)),
        token matches Ok(t) ==> (extra_claims@.len() == 1 && extra_claims@[0].0@
            == TOKEN_TYPE_CLAIM@ ==> class_in(t@) == Some(extra_claims@[0].1@)),
{
    generator.set_max_lifespan(lifespan);
    let audience = match audience {
        Aud::One(a) => asap::claims::Aud::One(a.clone()),
        Aud::Many(l) => asap::claims::Aud::Many(l.clone()),
    };
    let extra = extra_claims.iter().map(
        |(k, v)| (k.clone(), serde_json::Value::String(v.clone())),
    ).collect();
    generator.token(audience, Some(extra)).map_err(|e| e.to_string())
}

/// The generator of this service's tokens: it signs with the private key,
/// as the issuer and under the key id of this service.
pub fn generator_build(private_key: &[u8]) -> (generator: Generator)
    ensures
        generator == generator_for(ISS@, KID@, private_key@),
{
    Generator::new(ISS.to_owned(), KID.to_owned(), slice_to_vec(private_key))
}

/// What issuing returns once the signer has answered: the token, or a
/// signing error with the signer's words.
pub open spec fn issued(signed: Result<String, String>) -> Result<Seq<char>, ErrorKind> {
    match signed {
        Ok(token) => Ok(token@),
        Err(reason) => Err(ErrorKind::Signing(reason)),
    }
}

/// Turns the signer's answer into the result of issuing.
pub fn token_outcome(signed: Result<String, String>) -> (token: Result<String, Error>)
    ensures
        match token {
            Ok(t) => issued(signed) == Ok::<Seq<char>, ErrorKind>(t@),
            Err(e) => issued(signed) == Err::<Seq<char>, ErrorKind>(e.inner),
        },
{
    match signed {
        Ok(token) => Ok(token),
        Err(reason) => Err(Error { inner: ErrorKind::Signing(reason) }),
    }
}

/// Takes the client data that goes into the audience claim, and the class
/// of the token, and returns a signed token: a compact one, of three
/// parts, that names the encrypted client as its audience and the class in
/// an extra claim, and expires the lifetime of the class after its issue.
/// The only error is that the token could not be signed.
pub fn generate_token(
    token_type: TokenType,
    client_data: &str,
    master_key: &str,
    private_key: &[u8],
) -> (token: Result<String, Error>)
    ensures
        token matches Ok(t) ==> is_compact_token(t@),
        token matches Ok(t) ==> claim_in(t@, ISSUER_CLAIM@) == Some(ISS@),
        token matches Ok(t) ==> audience_in(t@) == Some(sealed(master_key@, client_data@)),
        token matches Ok(t) ==> class_in(t@) == Some(token_type.label()),
        token matches Ok(t) ==> lifetime_in(t@) == Some(token_type.lifetime()),
        token matches Err(e) ==> e.inner is Signing,
{
    let request = token_request(token_type, client_data, master_key);
    let generator = generator_build(private_key);
    token_outcome(
        sign(&generator, request.lifespan, &request.audience, &request.extra_claims),
    )
}

/// What a validator of this resource server is configured with: the key
/// server, and as audience the encrypted identity of this service.
pub fn validator_config(keyserver_uri: &str, master_key: &str) -> (config: ValidatorConfig)
    ensures
        config.keyserver_uri@ == keyserver_uri@,
        config.resource_server_audience@ == sealed(master_key@, AUD@),
        stands_for_only(config.resource_server_audience@, master_key@, AUD@),
{
    ValidatorConfig {
        keyserver_uri: keyserver_uri.to_owned(),
        resource_server_audience: encrypt_aud_to_base64(master_key, AUD),
    }
}

/// `Validator::builder`: the builder of a validator that fetches keys from
/// the key server and accepts tokens for the audience; it is made of
/// these two alone.
pub assume_specification[ Validator::builder ](
    keyserver: String,
    resource_server_audience: String,
) -> (builder: ValidatorBuilder)
    ensures
        builder == builder_for(keyserver@, resource_server_audience@),
;

/// Builds the validator for this resource server: it fetches keys from the
/// key server, and incoming tokens must name its audience, the encrypted
/// identity of this service, to be valid.
pub fn get_validator(keyserver_uri: &str, master_key: &str) -> (builder: ValidatorBuilder)
    ensures
        builder == builder_for(keyserver_uri@, sealed(master_key@, AUD@)),
{
    let config = validator_config(keyserver_uri, master_key);
    Validator::builder(config.keyserver_uri, config.resource_server_audience)
}

/// The generator that is made for an issuer, a key id and a private key.
/// It stands for these three alone: the lifespan of a generator's tokens
/// can be set on the generator at any time, and is no part of it.
pub uninterp spec fn generator_for(iss: Seq<char>, kid: Seq<char>, private_key: Seq<u8>) -> Generator;

/// The builder of validators that is made for a key server and an audience.
pub uninterp spec fn builder_for(keyserver: Seq<char>, audience: Seq<char>) -> ValidatorBuilder;

/// Whether a token names as its issuer the one that the generator was made
/// for.
pub open spec fn is_issued_by(token: Seq<char>, generator: Generator) -> bool {
    forall|iss: Seq<char>, kid: Seq<char>, private_key: Seq<u8>|
        generator == #[trigger] generator_for(iss, kid, private_key) ==> claim_in(
            token,
            ISSUER_CLAIM@,
        ) == Some(iss)
}

/// Whether a character belongs to the alphabet of base64 for URLs.
pub open spec fn is_url_safe(c: char) -> bool {
    ('A' <= c <= 'Z') || ('a' <= c <= 'z') || ('0' <= c <= '9') || c == '-' || c == '_'
}

/// Whether a text is a part of a compact token: not empty, and in base64
/// for URLs without padding.
pub open spec fn is_token_part(part: Seq<char>) -> bool {
    part.len() > 0 && forall|i: int| 0 <= i < part.len() ==> is_url_safe(#[trigger] part[i])
}

/// Whether a text has the shape of a compact signed token: three parts,
/// the header, the claims and the signature, joined by dots.
pub open spec fn is_compact_token(token: Seq<char>) -> bool {
    exists|header: Seq<char>, claims: Seq<char>, signature: Seq<char>|
        is_token_part(header) && is_token_part(claims) && is_token_part(signature) && token
            == #[trigger] joined(header, claims, signature)
}

/// Three parts joined by dots.
pub open spec fn joined(header: Seq<char>, claims: Seq<char>, signature: Seq<char>) -> Seq<char> {
    header + seq!['.'] + claims + seq!['.'] + signature
}

} // verus!
