//! The user records, and the identifiers they go by.

use uuid::Uuid;
use vstd::arithmetic::power::pow;
use vstd::prelude::*;
use vstd::std_specs::convert::FromSpecImpl;
use vstd::string::StringExecFns;

verus! {

/// The name of the query parameter that carries a user's identifier.
pub const PARAM_NAME: &'static str = "user_uuid";

/// A date and a time of day without a time zone. Nothing inside it is read
/// here.
#[verifier::external_type_specification]
#[verifier::external_body]
pub struct ExNaiveDateTime(chrono::NaiveDateTime);

/// `clone` of a date and time, which is a plain copy of it.
pub assume_specification[ <chrono::NaiveDateTime as Clone>::clone ](
    moment: &chrono::NaiveDateTime,
) -> (copy: chrono::NaiveDateTime)
    ensures
        copy == *moment,
;

/// The identifier of a user: the 128 bits of a UUID.
#[derive(Clone, Copy, Debug, PartialEq, Eq, Structural, Hash, PartialOrd, Ord)]
pub struct UserUuid(pub u128);

/// A text that is not a UUID.
#[derive(Clone, Copy, Debug, PartialEq, Eq, Structural)]
pub struct InvalidUuid;

/// The digit for a number below sixteen, in lower case.
pub open spec fn hex_digit(n: int) -> char {
    if n < 10 {
        (('0' as u8) + n) as char
    } else {
        (('a' as u8) + n - 10) as char
    }
}

/// Which of the 32 digits of a UUID stands at a place of its text that
/// holds no hyphen.
pub open spec fn digit_at(place: int) -> int {
    if place < 8 {
        place
    } else if place < 13 {
        place - 1
    } else if place < 18 {
        place - 2
    } else if place < 23 {
        place - 3
    } else {
        place - 4
    }
}

/// The text of a UUID: its 32 digits in base sixteen, highest first, in
/// lower case, in groups of 8, 4, 4, 4 and 12 with a hyphen between them.
pub open spec fn hyphenated(bits: u128) -> Seq<char> {
    Seq::new(
        36,
        |place: int|
            if place == 8 || place == 13 || place == 18 || place == 23 {
                '-'
            } else {
                hex_digit((bits as int / pow(16, (31 - digit_at(place)) as nat)) % 16)
            },
    )
}

/// The UUID that a text stands for, if it stands for one.
pub uninterp spec fn parsed_uuid(input: Seq<char>) -> Option<u128>;

/// `Uuid::from_u128`, then `to_string` on it, which writes the UUID in
/// lower case with hyphens.
#[verifier::external_body]
fn hyphenate(bits: u128) -> (text: String)
    ensures
        text@ == hyphenated(bits),
{
    Uuid::from_u128(bits).to_string()
}

/// Whether `bits` is what the parser owes for `input`: if `input` is the
/// text of a UUID, that UUID.
pub open spec fn reads_back(input: Seq<char>, bits: Option<u128>) -> bool {
    forall|written: u128| input == #[trigger] hyphenated(written) ==> bits == Some(written)
}

/// `Uuid::parse_str`, then `as_u128` on what it found. The parser takes
/// several ways of writing a UUID, among them the text in lower case with
/// hyphens; what it finds depends on the text alone.
#[verifier::external_body]
fn parse_uuid(input: &str) -> (bits: Option<u128>)
    ensures
        bits == parsed_uuid(input@),
        reads_back(input@, bits),
{
    Uuid::parse_str(input).ok().map(|id| id.as_u128())
}

impl UserUuid {
    /// The identifier as a query parameter: the name of the parameter, an
    /// equals sign, and the UUID with hyphens.
    pub fn to_query_parameter(self) -> (parameter: String)
        ensures
            parameter@ == PARAM_NAME@ + "="@ + hyphenated(self.0),
    {
        String::from_str(PARAM_NAME).concat("=").concat(hyphenate(self.0).as_str())
    }

    /// What a text gives when it is read as an identifier.
    pub open spec fn parsed(input: Seq<char>) -> Result<UserUuid, InvalidUuid> {
        match parsed_uuid(input) {
            Some(bits) => Ok(UserUuid(bits)),
            None => Err(InvalidUuid),
        }
    }

    /// Reads an identifier from the text of a UUID. What `text` writes is
    /// read back as the same identifier.
    pub fn parse_str(input: &str) -> (id: Result<UserUuid, InvalidUuid>)
        ensures
            id == UserUuid::parsed(input@),
            forall|written: u128|
                input@ == #[trigger] hyphenated(written) ==> id == Ok::<UserUuid, InvalidUuid>(
                    UserUuid(written),
                ),
    {
        match parse_uuid(input) {
            Some(bits) => Ok(UserUuid(bits)),
            None => Err(InvalidUuid),
        }
    }

    /// The identifier as it is written: the UUID with hyphens.
    pub fn text(&self) -> (text: String)
        ensures
            text@ == hyphenated(self.0),
    {
        hyphenate(self.0)
    }

    /// The bits of the UUID.
    pub fn as_ref(&self) -> (bits: &u128)
        ensures
            *bits == self.0,
    {
        &self.0
    }
}

impl From<u128> for UserUuid {
    fn from(uuid: u128) -> (id: UserUuid) {
        UserUuid(uuid)
    }
}

impl FromSpecImpl<u128> for UserUuid {
    open spec fn obeys_from_spec() -> bool {
        true
    }

    open spec fn from_spec(uuid: u128) -> UserUuid {
        UserUuid(uuid)
    }
}

/// A struct representing all the fields in the 'users' table.
#[derive(Clone, Debug)]
pub struct User {
    /// user id
    pub uuid: UserUuid,
    /// account's user name
    pub user_name: String,
    /// public display name
    pub display_name: String,
    /// email address
    pub email: String,
    /// hashed password
    pub password: String,
    /// date time of when 'users' row was created
    pub created_at: chrono::NaiveDateTime,
    /// date time of when 'users' row was last updated
    pub updated_at: chrono::NaiveDateTime,
    /// is the user active? defaults to true
    pub is_active: bool,
    /// is the user verified through email? defaults to false
    pub is_verified: bool,
}

/// The data of a user that is not stored yet.
#[derive(Debug, Clone)]
pub struct NewUser {
    pub user_name: String,
    pub display_name: String,
    pub email: String,
    pub password: String,
    pub created_at: chrono::NaiveDateTime,
    pub updated_at: chrono::NaiveDateTime,
    pub is_active: bool,
    pub is_verified: bool,
}

} // verus!
