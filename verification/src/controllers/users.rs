//! The shapes of the requests and answers of the user endpoints, and the
//! rules that a new user's data must meet.

use crate::exception::{Float, Number, ValidationProblem};
use crate::models::{NewUser, UserUuid};
use validator::ValidateEmail;
use vstd::prelude::*;
use vstd::string::StrSliceExecFns;

verus! {

/// A user as it is shown to clients.
#[derive(Debug)]
pub struct UserResponse {
    pub id: UserUuid,
    pub user_name: String,
    pub display_name: String,
    pub email: String,
    pub is_active: bool,
    pub is_verified: bool,
}

/// Several users as they are shown to clients.
#[derive(Debug)]
pub struct UsersResponse(pub Vec<UserResponse>);

/// What a client sends to have a user created.
#[derive(Clone, Debug)]
pub struct CreateUserRequest {
    pub user_name: String,
    pub email: String,
    pub display_name: String,
    pub password: String,
}

/// Whether a text has the shape of an email address.
pub uninterp spec fn email_shaped(text: Seq<char>) -> bool;

/// `validate_email` of the validation library, on a text: whether it has
/// the shape of an email address, which depends on the text alone.
#[verifier::external_body]
fn is_email(text: &str) -> (shaped: bool)
    ensures
        shaped == email_shaped(text@),
{
    text.validate_email()
}

/// The limit of a length as a rule holds it: the whole number, and the same
/// number with a fraction, of which the bits are given.
pub open spec fn limit(n: u64, bits: u64) -> Option<Number> {
    Some(Number { unsigned: Some(n), float: Some(Float { bits }) })
}

/// The limits of lengths that the rules for users name.
pub open spec fn known_limit(n: u64) -> Option<Number> {
    if n == 3 {
        limit(3, 0x4008_0000_0000_0000)
    } else if n == 6 {
        limit(6, 0x4018_0000_0000_0000)
    } else if n == 40 {
        limit(40, 0x4044_0000_0000_0000)
    } else if n == 255 {
        limit(255, 0x406F_E000_0000_0000)
    } else {
        Some(Number { unsigned: Some(n), float: None })
    }
}

/// The limit of a rule, if the rule has one.
pub open spec fn limit_of(n: Option<u64>) -> Option<Number> {
    match n {
        Some(n) => known_limit(n),
        None => None,
    }
}

/// The limit of a rule, if the rule has one.
fn make_limit(n: Option<u64>) -> (number: Option<Number>)
    ensures
        number == limit_of(n),
{
    match n {
        None => None,
        Some(n) => {
            let float = if n == 3 {
                Some(Float { bits: 0x4008_0000_0000_0000 })
            } else if n == 6 {
                Some(Float { bits: 0x4018_0000_0000_0000 })
            } else if n == 40 {
                Some(Float { bits: 0x4044_0000_0000_0000 })
            } else if n == 255 {
                Some(Float { bits: 0x406F_E000_0000_0000 })
            } else {
                None
            };
            Some(Number { unsigned: Some(n), float })
        },
    }
}

/// Whether a text is as long as a rule asks: its characters are counted.
pub open spec fn length_within(text: Seq<char>, min: Option<u64>, max: Option<u64>) -> bool {
    &&& min matches Some(least) ==> text.len() >= least
    &&& max matches Some(most) ==> text.len() <= most
}

/// What the rules find wrong with one field. `email` says whether the field
/// must be an email address; a length is checked before that.
pub open spec fn field_problems(
    text: Seq<char>,
    min: Option<u64>,
    max: Option<u64>,
    email: bool,
) -> Seq<(Seq<char>, Option<Number>, Option<Number>)> {
    let length = if (min is Some || max is Some) && !length_within(text, min, max) {
        seq![("length"@, limit_of(min), limit_of(max))]
    } else {
        seq![]
    };
    let shape = if email && !email_shaped(text) {
        seq![("email"@, None, None)]
    } else {
        seq![]
    };
    length + shape
}

/// A problem as the rules describe it: its code and its two limits.
pub open spec fn described(problem: ValidationProblem) -> (
    Seq<char>,
    Option<Number>,
    Option<Number>,
) {
    (problem.code@, problem.min, problem.max)
}

/// Whether a list of problems is what the rules find wrong with a field.
pub open spec fn are_problems_of(
    problems: Seq<ValidationProblem>,
    text: Seq<char>,
    min: Option<u64>,
    max: Option<u64>,
    email: bool,
) -> bool {
    &&& problems.map_values(|p: ValidationProblem| described(p)) == field_problems(
        text,
        min,
        max,
        email,
    )
    &&& forall|i: int| 0 <= i < problems.len() ==> (#[trigger] problems[i]).equal is None
    &&& forall|i: int| 0 <= i < problems.len() ==> (#[trigger] problems[i]).limits_are_numbers()
}

/// Checks one field against its rules.
pub fn check_field(text: &str, min: Option<u64>, max: Option<u64>, email: bool) -> (problems: Vec<
    ValidationProblem,
>)
    ensures
        are_problems_of(problems@, text@, min, max, email),
{
    let mut problems: Vec<ValidationProblem> = Vec::new();
    let length = text.unicode_len();
    let too_short = match min {
        Some(least) => (length as u64) < least,
        None => false,
    };
    let too_long = match max {
        Some(most) => (length as u64) > most,
        None => false,
    };
    if too_short || too_long {
        problems.push(
            ValidationProblem {
                code: "length".to_owned(),
                min: make_limit(min),
                max: make_limit(max),
                equal: None,
            },
        );
    }
    if email && !is_email(text) {
        problems.push(
            ValidationProblem { code: "email".to_owned(), min: None, max: None, equal: None },
        );
    }
    proof {
        reveal_strlit("length");
        reveal_strlit("email");
        reveal_strlit("range");
        assert("length"@ != "range"@) by {
            assert("length"@.len() == 6);
            assert("range"@.len() == 5);
        }
        assert("email"@ != "range"@) by {
            assert("email"@[0] == 'e');
            assert("range"@[0] == 'r');
        }
        assert("email"@ != "length"@) by {
            assert("email"@.len() == 5);
            assert("length"@.len() == 6);
        }
        assert(problems@.map_values(|p: ValidationProblem| described(p)) =~= field_problems(
            text@,
            min,
            max,
            email,
        ));
    }
    problems
}

/// One field to check: its name, its text, the least and the most
/// characters it may have, and whether it must be an email address.
#[derive(Debug)]
pub struct FieldCheck {
    pub name: String,
    pub text: String,
    pub min: Option<u64>,
    pub max: Option<u64>,
    pub email: bool,
}

/// A field to check, as plain text and numbers.
pub type Rule = (Seq<char>, Seq<char>, Option<u64>, Option<u64>, bool);

/// What is found wrong with a field: its name, and the problems as the
/// rules describe them.
pub type Finding = (Seq<char>, Seq<(Seq<char>, Option<Number>, Option<Number>)>);

impl FieldCheck {
    /// The field to check, as plain text and numbers.
    pub open spec fn rule(self) -> Rule {
        (self.name@, self.text@, self.min, self.max, self.email)
    }
}

/// What the rules find wrong: for every field that has problems, in the
/// order of the fields, its name and its problems.
pub open spec fn findings(rules: Seq<Rule>) -> Seq<Finding>
    decreases rules.len(),
{
    if rules.len() == 0 {
        seq![]
    } else {
        let last = rules.last();
        let problems = field_problems(last.1, last.2, last.3, last.4);
        if problems.len() > 0 {
            findings(rules.drop_last()).push((last.0, problems))
        } else {
            findings(rules.drop_last())
        }
    }
}

/// What was found wrong, as plain text and numbers.
pub open spec fn described_all(found: Seq<(String, Vec<ValidationProblem>)>) -> Seq<Finding> {
    found.map_values(
        |f: (String, Vec<ValidationProblem>)|
            (f.0@, f.1@.map_values(|p: ValidationProblem| described(p))),
    )
}

/// Whether what was found holds only problems that the rules make: with
/// limits that are numbers, and none for an exact length.
pub open spec fn well_made(found: Seq<(String, Vec<ValidationProblem>)>) -> bool {
    forall|i: int, j: int|
        0 <= i < found.len() && 0 <= j < found[i].1@.len() ==> (#[trigger] found[i].1@[j]).equal
            is None && found[i].1@[j].limits_are_numbers()
}

/// Checks the fields against their rules, in their order.
pub fn check_fields(checks: &Vec<FieldCheck>) -> (found: Vec<(String, Vec<ValidationProblem>)>)
    ensures
        described_all(found@) == findings(checks@.map_values(|c: FieldCheck| c.rule())),
        well_made(found@),
{
    let ghost rules = checks@.map_values(|c: FieldCheck| c.rule());
    let mut found: Vec<(String, Vec<ValidationProblem>)> = Vec::new();
    let mut i: usize = 0;
    proof {
        assert(rules.take(0) =~= seq![]);
        assert(described_all(found@) =~= seq![]);
    }
    while i < checks.len()
        invariant
            i <= checks.len(),
            rules == checks@.map_values(|c: FieldCheck| c.rule()),
            described_all(found@) == findings(rules.take(i as int)),
            well_made(found@),
        decreases checks.len() - i,
    {
        let check = &checks[i];
        let problems = check_field(check.text.as_str(), check.min, check.max, check.email);
        proof {
            let upto = rules.take(i + 1);
            assert(upto.drop_last() =~= rules.take(i as int));
            assert(upto.last() == check.rule());
        }
        if problems.len() > 0 {
            let ghost before = found@;
            let ghost entry = (check.name, problems);
            found.push((check.name.clone(), problems));
            proof {
                let added = found@[before.len() as int];
                assert(added.0@ == check.name@);
                assert(added.1@ == problems@);
                assert(described_all(found@) =~= described_all(before).push(
                    (check.name@, problems@.map_values(|p: ValidationProblem| described(p))),
                ));
                assert forall|a: int, b: int|
                    0 <= a < found@.len() && 0 <= b < found@[a].1@.len() implies (
                #[trigger] found@[a].1@[b]).equal is None && found@[a].1@[b].limits_are_numbers() by {
                    if a < before.len() {
                        assert(found@[a] == before[a]);
                    }
                }
            }
        }
        i += 1;
    }
    proof {
        assert(rules.take(i as int) =~= rules);
    }
    found
}

/// A field to check, from its parts.
fn field(name: &str, text: &String, min: Option<u64>, max: Option<u64>, email: bool) -> (check:
    FieldCheck)
    ensures
        check.rule() == (name@, text@, min, max, email),
{
    FieldCheck { name: name.to_owned(), text: text.clone(), min, max, email }
}

impl CreateUserRequest {
    /// The rules for a request to create a user: a user name of 3 to 40
    /// characters, an email address, a display name of at least 3
    /// characters and a password of at least 6.
    pub open spec fn rules(self) -> Seq<Rule> {
        seq![
            ("user_name"@, self.user_name@, Some(3u64), Some(40u64), false),
            ("email"@, self.email@, None, None, true),
            ("display_name"@, self.display_name@, Some(3u64), None, false),
            ("password"@, self.password@, Some(6u64), None, false),
        ]
    }

    /// Checks the request against its rules. A request that meets them all
    /// is accepted; for any other, every field that breaks a rule is
    /// listed with what is wrong with it.
    pub fn validate(&self) -> (checked: Result<(), Vec<(String, Vec<ValidationProblem>)>>)
        ensures
            match checked {
                Ok(()) => findings(self.rules()).len() == 0,
                Err(found) => found@.len() > 0 && described_all(found@) == findings(self.rules())
                    && well_made(found@),
            },
    {
        let mut checks: Vec<FieldCheck> = Vec::new();
        checks.push(field("user_name", &self.user_name, Some(3), Some(40), false));
        checks.push(field("email", &self.email, None, None, true));
        checks.push(field("display_name", &self.display_name, Some(3), None, false));
        checks.push(field("password", &self.password, Some(6), None, false));
        proof {
            assert(checks@.map_values(|c: FieldCheck| c.rule()) =~= self.rules());
        }
        let found = check_fields(&checks);
        proof {
            assert(described_all(found@).len() == found@.len());
        }
        if found.len() == 0 {
            Ok(())
        } else {
            Err(found)
        }
    }
}

impl NewUser {
    /// The rules for a user to be stored: a user name and a display name
    /// of 3 to 40 characters, an email address of at most 255 characters,
    /// and a password of at least 6.
    pub open spec fn rules(self) -> Seq<Rule> {
        seq![
            ("user_name"@, self.user_name@, Some(3u64), Some(40u64), false),
            ("display_name"@, self.display_name@, Some(3u64), Some(40u64), false),
            ("email"@, self.email@, None, Some(255u64), true),
            ("password"@, self.password@, Some(6u64), None, false),
        ]
    }

    /// Checks the user against its rules. A user that meets them all is
    /// accepted; for any other, every field that breaks a rule is listed
    /// with what is wrong with it.
    pub fn validate(&self) -> (checked: Result<(), Vec<(String, Vec<ValidationProblem>)>>)
        ensures
            match checked {
                Ok(()) => findings(self.rules()).len() == 0,
                Err(found) => found@.len() > 0 && described_all(found@) == findings(self.rules())
                    && well_made(found@),
            },
    {
        let mut checks: Vec<FieldCheck> = Vec::new();
        checks.push(field("user_name", &self.user_name, Some(3), Some(40), false));
        checks.push(field("display_name", &self.display_name, Some(3), Some(40), false));
        checks.push(field("email", &self.email, None, Some(255), true));
        checks.push(field("password", &self.password, Some(6), None, false));
        proof {
            assert(checks@.map_values(|c: FieldCheck| c.rule()) =~= self.rules());
        }
        let found = check_fields(&checks);
        proof {
            assert(described_all(found@).len() == found@.len());
        }
        if found.len() == 0 {
            Ok(())
        } else {
            Err(found)
        }
    }
}

} // verus!
