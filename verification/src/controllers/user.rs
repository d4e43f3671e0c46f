//! Deciding on the creation of a user.
//!
//! Looking up whether a name or an address is taken, hashing the password
//! and storing the user are the caller's part. What is decided here is
//! whether the user may be stored, and what the client is told if not.

use crate::controllers::users::{described_all, findings, well_made};
use crate::exception::{collected, Fault, InvalidParams, InvalidParamsReason, ValidationProblem};
use crate::models::NewUser;
use crate::payload::{Response, ResponseBuilder};
use vstd::prelude::*;

verus! {

/// The name on the wire of the parameter that holds the user name.
pub const USER_NAME_PARAMETER: &'static str = "userName";

/// The name on the wire of the parameter that holds the email address.
pub const EMAIL_PARAMETER: &'static str = "emailAddress";

/// The reasons given when only names are taken: that the user name
/// exists, that the email address exists, or both.
pub open spec fn taken_reasons(
    user_name_taken: bool,
    email_taken: bool,
    name: Seq<char>,
) -> Seq<InvalidParamsReason> {
    if name == USER_NAME_PARAMETER@ && user_name_taken {
        seq![InvalidParamsReason::AlreadyExists]
    } else if name == EMAIL_PARAMETER@ && email_taken {
        seq![InvalidParamsReason::AlreadyExists]
    } else {
        seq![]
    }
}

/// Whether `params` is what a client is told about a user that may not be
/// stored: what the rules find wrong with it, if anything, and else which
/// of its names are taken.
pub open spec fn explains_refusal(
    params: InvalidParams,
    new_user: NewUser,
    user_name_taken: bool,
    email_taken: bool,
) -> bool {
    if findings(new_user.rules()).len() > 0 {
        exists|found: Seq<(String, Vec<ValidationProblem>)>|
            #![auto]
            described_all(found) == findings(new_user.rules()) && well_made(found) && forall|
                name: Seq<char>,
            | #[trigger] params.reasons(name) == collected(found, name)
    } else {
        forall|name: Seq<char>| #[trigger]
            params.reasons(name) == taken_reasons(user_name_taken, email_taken, name)
    }
}

/// Decides whether a user may be stored. It may if it meets the rules for
/// users and neither its user name nor its email address is taken. If it
/// breaks a rule, the client is told which fields break which rules; if
/// not, which of the two is taken.
pub fn decide_creation(new_user: NewUser, user_name_taken: bool, email_taken: bool) -> (decision:
    Result<NewUser, Fault>)
    ensures
        decision is Ok <==> findings(new_user.rules()).len() == 0 && !user_name_taken
            && !email_taken,
        decision matches Ok(user) ==> user == new_user,
        decision matches Err(fault) ==> fault matches Fault::InvalidParams { invalid_params }
            && invalid_params.wf() && explains_refusal(
            invalid_params,
            new_user,
            user_name_taken,
            email_taken,
        ),
{
    if let Err(found) = new_user.validate() {
        proof {
            assert forall|i: int, j: int|
                0 <= i < found@.len() && 0 <= j < found@[i].1@.len() implies (
            #[trigger] found@[i].1@[j]).limits_are_numbers() by {
                assert(found@[i].1@[j].equal is None);
            }
        }
        let invalid_params = InvalidParams::from_fields(&found);
        return Err(Fault::InvalidParams { invalid_params });
    }
    let mut invalid_params = InvalidParams::new();
    proof {
        lemma_parameters_differ();
        assert forall|name: Seq<char>| #[trigger]
            invalid_params.reasons(name) == Seq::<InvalidParamsReason>::empty() by {
            assert(invalid_params.reasons(name).len() == 0);
        }
    }
    if user_name_taken {
        invalid_params.add(USER_NAME_PARAMETER.to_owned(), InvalidParamsReason::AlreadyExists);
    }
    if email_taken {
        invalid_params.add(EMAIL_PARAMETER.to_owned(), InvalidParamsReason::AlreadyExists);
    }
    proof {
        assert forall|name: Seq<char>| #[trigger]
            invalid_params.reasons(name) == taken_reasons(user_name_taken, email_taken, name) by {
            assert(Seq::<InvalidParamsReason>::empty().push(InvalidParamsReason::AlreadyExists)
                =~= seq![InvalidParamsReason::AlreadyExists]);
        }
    }
    if !invalid_params.is_empty() {
        return Err(Fault::InvalidParams { invalid_params });
    }
    proof {
        if user_name_taken {
            assert(invalid_params.reasons(USER_NAME_PARAMETER@).len() == 1);
        }
        if email_taken {
            assert(invalid_params.reasons(EMAIL_PARAMETER@).len() == 1);
        }
    }
    Ok(new_user)
}

/// The two parameters have different names.
proof fn lemma_parameters_differ()
    ensures
        USER_NAME_PARAMETER@ != EMAIL_PARAMETER@,
{
    reveal_strlit("userName");
    reveal_strlit("emailAddress");
    assert("userName"@.len() == 8);
    assert("emailAddress"@.len() == 12);
}

/// The answer to a request that created a user: the status Created, no
/// headers and no body.
pub fn created_response<T>() -> (response: Response<T>)
    ensures
        response.status() == 201,
        response.body() is None,
        forall|name: Seq<char>| #[trigger] response.header(name) is None,
{
    ResponseBuilder::created().empty()
}

} // verus!
