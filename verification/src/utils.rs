//! Small helpers shared by the request handlers.

use crate::exception::{Fault, JsonCategory, JsonDeserializeError, StaticException, ValidationProblem};
use regex::Regex;
use vstd::prelude::*;

verus! {

/// What a password must look like: six to twenty-five characters on one
/// line.
pub const PASSWORD_PATTERN: &'static str = "^.{6,25}$";

/// What is said of a password that does not look like that.
pub const PASSWORD_COMPLAINT: &'static str = "Password should contain:\n At least 6 characters";

/// The most bytes that the body of a request may have: 64 KiB.
pub const CONTENT_LENGTH_LIMIT: u64 = 65536;

/// The content type of a problem that is reported to a client.
pub const FAULT_CONTENT_TYPE: &'static str = "application/fault+json";

/// Whether the regular expression `pattern` finds a match in `text`, if
/// `pattern` is a regular expression at all.
pub uninterp spec fn matched(pattern: Seq<char>, text: Seq<char>) -> Option<bool>;

/// `Regex::new` on the pattern, then `Regex::is_match` on the text. A
/// pattern that does not compile gives nothing; matching depends on the
/// pattern and the text alone.
#[verifier::external_body]
fn is_match(pattern: &str, text: &str) -> (found: Option<bool>)
    ensures
        found == matched(pattern@, text@),
{
    Regex::new(pattern).ok().map(|re| re.is_match(text))
}

/// What a nested result collapses to: the outer error if there is one,
/// otherwise the inner result as it stands.
pub open spec fn flattened<T, E>(nested: Result<Result<T, E>, E>) -> Result<T, E> {
    match nested {
        Err(e) => Err(e),
        Ok(v) => v,
    }
}

/// Flatten a nested result with equal error types to a single result.
pub fn flatten_result<T, E>(nested: Result<Result<T, E>, E>) -> (flat: Result<T, E>)
    ensures
        flat == flattened(nested),
{
    match nested {
        Err(e) => Err(e),
        Ok(v) => v,
    }
}

/// What `ok_or_internal_error` makes of a result.
pub open spec fn or_internal_error<T, E>(r: Result<T, E>) -> Result<T, Fault> {
    match r {
        Ok(value) => Ok(value),
        Err(_) => Err(Fault::Static(StaticException::InternalServerError)),
    }
}

/// Keeps the value of a result, and turns any error into the problem of a
/// failure inside the server.
pub fn ok_or_internal_error<T, E>(r: Result<T, E>) -> (kept: Result<T, Fault>)
    ensures
        kept == or_internal_error(r),
{
    match r {
        Ok(value) => Ok(value),
        Err(_) => Err(Fault::Static(StaticException::InternalServerError)),
    }
}

/// What `some_or_internal_error` makes of an option.
pub open spec fn some_or<T>(r: Option<T>) -> Result<T, Fault> {
    match r {
        Some(value) => Ok(value),
        None => Err(Fault::Static(StaticException::InternalServerError)),
    }
}

/// Keeps the value of an option, and turns its absence into the problem of
/// a failure inside the server.
pub fn some_or_internal_error<T>(r: Option<T>) -> (kept: Result<T, Fault>)
    ensures
        kept == some_or(r),
{
    match r {
        Some(value) => Ok(value),
        None => Err(Fault::Static(StaticException::InternalServerError)),
    }
}

/// Whether a password is accepted: the password pattern must match it.
pub open spec fn password_accepted(pass: Seq<char>) -> bool {
    matched(PASSWORD_PATTERN@, pass) == Some(true)
}

/// Validates a password against the password pattern. A password that the
/// pattern does not match is refused with the complaint as the code of the
/// problem, and no limits.
pub fn validate_pass(pass: &str) -> (checked: Result<(), ValidationProblem>)
    ensures
        checked is Ok <==> password_accepted(pass@),
        checked matches Err(problem) ==> problem.code@ == PASSWORD_COMPLAINT@ && problem.min is None
            && problem.max is None && problem.equal is None,
{
    match is_match(PASSWORD_PATTERN, pass) {
        Some(true) => Ok(()),
        _ => Err(
            ValidationProblem {
                code: PASSWORD_COMPLAINT.to_owned(),
                min: None,
                max: None,
                equal: None,
            },
        ),
    }
}

/// The problem of a body that is longer than a request may have.
pub fn payload_too_large() -> (fault: Fault)
    ensures
        fault == (Fault::PayloadTooLarge { limit: 65536 }),
{
    Fault::PayloadTooLarge { limit: CONTENT_LENGTH_LIMIT }
}

/// The problem of a body that the JSON parser could not read, by the kind
/// of the parser's error.
pub fn invalid_json(category: JsonCategory) -> (fault: Fault)
    ensures
        fault == (Fault::InvalidJson { category: JsonDeserializeError::of(category) }),
{
    Fault::InvalidJson { category: JsonDeserializeError::from(category) }
}

/// The problem that stands for a rejection that no handler of this service
/// made: that nothing was found, if that is what the rejection says, and
/// else a failure inside the server.
pub open spec fn foreign_rejection(is_not_found: bool) -> Fault {
    if is_not_found {
        Fault::Static(StaticException::NotFound)
    } else {
        Fault::Static(StaticException::InternalServerError)
    }
}

/// The problem to report for a rejection: the problem that a handler of
/// this service gave as the cause, if there is one, and else the problem
/// that stands for a rejection from elsewhere.
pub fn handle_rejection(cause: Option<Fault>, is_not_found: bool) -> (fault: Fault)
    ensures
        cause matches Some(own) ==> fault == own,
        cause is None ==> fault == foreign_rejection(is_not_found),
{
    match cause {
        Some(own) => own,
        None => if is_not_found {
            Fault::Static(StaticException::NotFound)
        } else {
            Fault::Static(StaticException::InternalServerError)
        },
    }
}

} // verus!
