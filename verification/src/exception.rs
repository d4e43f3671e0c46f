//! The problems that are reported to a client, and how they read on the wire.

use heck::ToLowerCamelCase;
use crate::named::{first_named, lemma_first_named, lemma_others_kept, lemma_unnamed};
use crate::text::{decimal, to_decimal};
use vstd::prelude::*;
use vstd::std_specs::convert::FromSpecImpl;
use vstd::string::StringExecFns;

verus! {

/// A problem that needs no words of its own: its title says it all.
#[derive(Debug, Clone, Copy, PartialEq, Eq, Structural)]
pub enum StaticException {
    NotFound,
    InternalServerError,
}

/// What is wrong with the token that came with a request.
#[derive(Debug, Clone, Copy, PartialEq, Eq, Structural)]
pub enum AuthenticationTokenProblemCategory {
    Missing,
    Malformed,
    Expired,
}

/// Why the body of a request could not be read as JSON.
#[derive(Debug, Clone, Copy, PartialEq, Eq, Structural)]
pub enum JsonDeserializeError {
    Syntactic,
    Semantic,
    PrematureEnd,
    Other,
}

/// The kinds of error that a JSON parser tells apart.
#[derive(Debug, Clone, Copy, PartialEq, Eq, Structural)]
pub enum JsonCategory {
    Io,
    Syntax,
    Data,
    Eof,
}

impl JsonDeserializeError {
    /// What a client is told for each kind of parser error.
    pub open spec fn of(category: JsonCategory) -> JsonDeserializeError {
        match category {
            JsonCategory::Syntax => JsonDeserializeError::Syntactic,
            JsonCategory::Data => JsonDeserializeError::Semantic,
            JsonCategory::Eof => JsonDeserializeError::PrematureEnd,
            JsonCategory::Io => JsonDeserializeError::Other,
        }
    }
}

impl From<JsonCategory> for JsonDeserializeError {
    fn from(category: JsonCategory) -> (error: JsonDeserializeError) {
        match category {
            JsonCategory::Syntax => JsonDeserializeError::Syntactic,
            JsonCategory::Data => JsonDeserializeError::Semantic,
            JsonCategory::Eof => JsonDeserializeError::PrematureEnd,
            _ => JsonDeserializeError::Other,
        }
    }
}

impl FromSpecImpl<JsonCategory> for JsonDeserializeError {
    open spec fn obeys_from_spec() -> bool {
        true
    }

    open spec fn from_spec(category: JsonCategory) -> JsonDeserializeError {
        JsonDeserializeError::of(category)
    }
}

/// A request was turned away by the rate limiter.
#[derive(Debug, Clone, Copy, PartialEq, Eq, Structural)]
pub struct RateLimitException {
    /// Milliseconds until a request would be admitted.
    pub wait_time_millis: u64,
}

/// A number with a fraction, held by the 64 bits that encode it.
#[derive(Debug, Clone, Copy, PartialEq, Eq, Structural)]
pub struct Float {
    pub bits: u64,
}

/// Why a parameter of a request was not accepted.
#[derive(Debug, Clone, Copy, PartialEq, Eq)]
pub enum InvalidParamsReason {
    MustBeEmailAddress,
    MustBeUrl,
    MustBeInRange { min: Float, max: Float },
    MustHaveLengthBetween { min: Option<u64>, max: Option<u64> },
    MustHaveLengthExactly { length: u64 },
    AlreadyExists,
    InvalidToken { category: AuthenticationTokenProblemCategory },
    Other,
}

/// A number as a validation rule holds it: as a whole number that is not
/// negative, if it is one, and as a number with a fraction, if it fits one.
#[derive(Debug, Clone, Copy, PartialEq, Eq)]
pub struct Number {
    pub unsigned: Option<u64>,
    pub float: Option<Float>,
}

/// What a validation rule found wrong with a field: the rule's code, and
/// the limits that the rule was given, where it has them.
#[derive(Debug)]
pub struct ValidationProblem {
    pub code: String,
    pub min: Option<Number>,
    pub max: Option<Number>,
    pub equal: Option<Number>,
}

/// The limit of a rule as a whole number, if the rule has that limit.
pub open spec fn whole(limit: Option<Number>) -> Option<u64> {
    match limit {
        Some(n) => n.unsigned,
        None => None,
    }
}

/// The limit of a rule as a number with a fraction, if the rule has that
/// limit.
pub open spec fn fractional(limit: Option<Number>) -> Option<Float> {
    match limit {
        Some(n) => n.float,
        None => None,
    }
}

impl ValidationProblem {
    /// Whether every limit that the rule's code reads is a number of the
    /// kind that the code asks for: a range reads its limits as numbers with
    /// a fraction, a length reads them as whole numbers.
    pub open spec fn limits_are_numbers(self) -> bool {
        &&& self.code@ == "range"@ ==> (self.min is Some ==> fractional(self.min) is Some) && (
        self.max is Some ==> fractional(self.max) is Some)
        &&& self.code@ == "length"@ ==> (self.min is Some ==> whole(self.min) is Some) && (
        self.max is Some ==> whole(self.max) is Some) && (self.equal is Some ==> whole(
            self.equal,
        ) is Some)
    }

    /// The reason that a client is told for this problem.
    pub open spec fn reason(self) -> InvalidParamsReason {
        if self.code@ == "email"@ {
            InvalidParamsReason::MustBeEmailAddress
        } else if self.code@ == "url"@ {
            InvalidParamsReason::MustBeUrl
        } else if self.code@ == "range"@ {
            match (fractional(self.min), fractional(self.max)) {
                (Some(min), Some(max)) => InvalidParamsReason::MustBeInRange { min, max },
                _ => InvalidParamsReason::Other,
            }
        } else if self.code@ == "length"@ {
            match (whole(self.min), whole(self.max), whole(self.equal)) {
                (Some(min), max, None) => InvalidParamsReason::MustHaveLengthBetween {
                    min: Some(min),
                    max,
                },
                (min, Some(max), None) => InvalidParamsReason::MustHaveLengthBetween {
                    min,
                    max: Some(max),
                },
                (None, None, Some(equal)) => InvalidParamsReason::MustHaveLengthExactly {
                    length: equal,
                },
                _ => InvalidParamsReason::Other,
            }
        } else {
            InvalidParamsReason::Other
        }
    }
}

/// The limit of a rule as a whole number.
fn whole_of(limit: &Option<Number>) -> (n: Option<u64>)
    ensures
        n == whole(*limit),
{
    match limit {
        Some(n) => n.unsigned,
        None => None,
    }
}

/// The limit of a rule as a number with a fraction.
fn fractional_of(limit: &Option<Number>) -> (n: Option<Float>)
    ensures
        n == fractional(*limit),
{
    match limit {
        Some(n) => n.float,
        None => None,
    }
}

impl InvalidParamsReason {
    /// The reason that a client is told for a problem found by a
    /// validation rule. Rules other than for an email address, a URL, a
    /// range and a length, and limits that do not fit their rule, give
    /// `Other`.
    pub fn from(problem: &ValidationProblem) -> (reason: InvalidParamsReason)
        requires
            problem.limits_are_numbers(),
        ensures
            reason == problem.reason(),
    {
        let code = problem.code.as_str();
        if str::eq(code, "email") {
            InvalidParamsReason::MustBeEmailAddress
        } else if str::eq(code, "url") {
            InvalidParamsReason::MustBeUrl
        } else if str::eq(code, "range") {
            match (fractional_of(&problem.min), fractional_of(&problem.max)) {
                (Some(min), Some(max)) => InvalidParamsReason::MustBeInRange { min, max },
                _ => InvalidParamsReason::Other,
            }
        } else if str::eq(code, "length") {
            match (whole_of(&problem.min), whole_of(&problem.max), whole_of(&problem.equal)) {
                (Some(min), max, None) => InvalidParamsReason::MustHaveLengthBetween {
                    min: Some(min),
                    max,
                },
                (min, Some(max), None) => InvalidParamsReason::MustHaveLengthBetween {
                    min,
                    max: Some(max),
                },
                (None, None, Some(equal)) => InvalidParamsReason::MustHaveLengthExactly {
                    length: equal,
                },
                _ => InvalidParamsReason::Other,
            }
        } else {
            InvalidParamsReason::Other
        }
    }
}

/// The parameters of a request that were not accepted, each with the
/// reasons, in the order in which they were found.
#[derive(Debug)]
pub struct InvalidParams {
    inner: Vec<(String, Vec<InvalidParamsReason>)>,
}

/// The reasons listed under `name`: those of the first entry with that
/// name, or none.
pub open spec fn reasons_in(
    entries: Seq<(String, Vec<InvalidParamsReason>)>,
    name: Seq<char>,
) -> Seq<InvalidParamsReason> {
    match first_named(entries, name) {
        Some(reasons) => reasons@,
        None => Seq::empty(),
    }
}

impl InvalidParams {
    /// No name is held twice.
    pub closed spec fn wf(&self) -> bool {
        forall|j: int, k: int|
            0 <= j < k < self.inner@.len() ==> (#[trigger] self.inner@[j]).0@ != (
            #[trigger] self.inner@[k]).0@
    }

    /// The reasons given for the parameter `name`, oldest first; none if
    /// the parameter was never named.
    pub closed spec fn reasons(&self, name: Seq<char>) -> Seq<InvalidParamsReason> {
        reasons_in(self.inner@, name)
    }

    /// The parameters with their reasons, in the order in which they were
    /// first named.
    pub fn entries(&self) -> (entries: &Vec<(String, Vec<InvalidParamsReason>)>)
        ensures
            forall|name: Seq<char>| #[trigger] reasons_in(entries@, name) == self.reasons(name),
    {
        &self.inner
    }

    /// No parameters, so no reasons.
    pub fn new() -> (params: InvalidParams)
        ensures
            params.wf(),
            forall|name: Seq<char>| #[trigger] params.reasons(name).len() == 0,
    {
        InvalidParams { inner: Vec::new() }
    }

    /// Whether no reason at all is held, under any name.
    pub fn is_empty(&self) -> (empty: bool)
        requires
            self.wf(),
        ensures
            empty <==> forall|name: Seq<char>| #[trigger] self.reasons(name).len() == 0,
    {
        let mut i: usize = 0;
        while i < self.inner.len()
            invariant
                self.wf(),
                i <= self.inner.len(),
                forall|j: int| 0 <= j < i ==> (#[trigger] self.inner@[j]).1@.len() == 0,
            decreases self.inner.len() - i,
        {
            if self.inner[i].1.len() > 0 {
                proof {
                    let found = self.inner@[i as int].0@;
                    lemma_first_named(self.inner@, found, i as int);
                    assert(self.reasons(found).len() > 0);
                }
                return false;
            }
            i += 1;
        }
        proof {
            assert forall|name: Seq<char>| #[trigger] self.reasons(name).len() == 0 by {
                lemma_all_empty(self.inner@, name);
            }
        }
        true
    }

    /// Adds a reason for a parameter, after those it already has. The
    /// reasons of every other parameter stay as they are.
    pub fn add(&mut self, parameter: String, reason: InvalidParamsReason)
        requires
            old(self).wf(),
        ensures
            final(self).wf(),
            final(self).reasons(parameter@) == old(self).reasons(parameter@).push(reason),
            forall|name: Seq<char>|
                name != parameter@ ==> #[trigger] final(self).reasons(name) == old(self).reasons(
                    name,
                ),
    {
        let ghost before = self.inner@;
        let ghost named = parameter@;
        let mut i: usize = 0;
        while i < self.inner.len()
            invariant
                i <= self.inner.len(),
                self.inner@ == before,
                old(self).inner@ == before,
                old(self).wf(),
                named == parameter@,
                forall|j: int| 0 <= j < i ==> (#[trigger] self.inner@[j]).0@ != named,
            decreases self.inner.len() - i,
        {
            if str::eq(self.inner[i].0.as_str(), parameter.as_str()) {
                self.inner[i].1.push(reason);
                proof {
                    let after = self.inner@;
                    assert(after.len() == before.len());
                    assert(after[i as int].0@ == named);
                    assert(after[i as int].1@ == before[i as int].1@.push(reason));
                    assert forall|j: int| 0 <= j < before.len() implies before[j].0@
                        == after[j].0@ by {}
                    lemma_first_named(before, named, i as int);
                    lemma_first_named(after, named, i as int);
                    assert forall|name: Seq<char>| name != named implies reasons_in(after, name)
                        == reasons_in(before, name) by {
                        lemma_others_kept(before, after, named, name);
                    }
                }
                return ;
            }
            i += 1;
        }
        let mut list: Vec<InvalidParamsReason> = Vec::new();
        list.push(reason);
        self.inner.push((parameter, list));
        proof {
            let after = self.inner@;
            lemma_unnamed(before, named);
            lemma_first_named(after, named, before.len() as int);
            assert(Seq::<InvalidParamsReason>::empty().push(reason) == after[before.len() as int].1@);
            assert forall|name: Seq<char>| name != named implies reasons_in(after, name)
                == reasons_in(before, name) by {
                lemma_others_kept(before, after, named, name);
            }
        }
    }
}

/// Entries without any reason give no name a reason.
proof fn lemma_all_empty(entries: Seq<(String, Vec<InvalidParamsReason>)>, name: Seq<char>)
    requires
        forall|j: int| 0 <= j < entries.len() ==> (#[trigger] entries[j]).1@.len() == 0,
    ensures
        reasons_in(entries, name).len() == 0,
    decreases entries.len(),
{
    if entries.len() > 0 {
        let rest = entries.drop_first();
        assert forall|j: int| 0 <= j < rest.len() implies (#[trigger] rest[j]).1@.len() == 0 by {
            assert(rest[j] == entries[j + 1]);
        }
        lemma_all_empty(rest, name);
        assert(entries[0].1@.len() == 0);
    }
}

/// The name of a field in lower camel case, as it is written on the wire.
pub uninterp spec fn mixed_case(name: Seq<char>) -> Seq<char>;

/// `to_lower_camel_case` of the case conversion library: the words of the
/// name joined, the first in lower case, the others capitalised.
#[verifier::external_body]
fn to_mixed_case(name: &str) -> (mixed: String)
    ensures
        mixed@ == mixed_case(name@),
{
    name.to_lower_camel_case()
}

/// The reasons for the problems of one field, in their order.
pub open spec fn reasons_of(problems: Seq<ValidationProblem>) -> Seq<InvalidParamsReason> {
    problems.map_values(|p: ValidationProblem| p.reason())
}

/// The reasons that the fields' problems give to the parameter `name`:
/// those of every field whose name reads `name` on the wire, field by
/// field.
pub open spec fn collected(
    fields: Seq<(String, Vec<ValidationProblem>)>,
    name: Seq<char>,
) -> Seq<InvalidParamsReason>
    decreases fields.len(),
{
    if fields.len() == 0 {
        Seq::empty()
    } else if mixed_case(fields.last().0@) == name {
        collected(fields.drop_last(), name) + reasons_of(fields.last().1@)
    } else {
        collected(fields.drop_last(), name)
    }
}

/// Whether every limit of every problem is a number of the kind that the
/// problem's rule reads.
pub open spec fn all_limits_are_numbers(fields: Seq<(String, Vec<ValidationProblem>)>) -> bool {
    forall|i: int, j: int|
        0 <= i < fields.len() && 0 <= j < fields[i].1@.len() ==> (
        #[trigger] fields[i].1@[j]).limits_are_numbers()
}

impl InvalidParams {
    /// The invalid parameters for the problems that validation found, given
    /// field by field: each field under its name on the wire, with the
    /// reasons for its problems in their order.
    pub fn from_fields(fields: &Vec<(String, Vec<ValidationProblem>)>) -> (params: InvalidParams)
        requires
            all_limits_are_numbers(fields@),
        ensures
            params.wf(),
            forall|name: Seq<char>| #[trigger] params.reasons(name) == collected(fields@, name),
    {
        let mut invalid_params = InvalidParams::new();
        let mut i: usize = 0;
        assert forall|name: Seq<char>| #[trigger]
            invalid_params.reasons(name) == collected(fields@.take(0), name) by {
            assert(invalid_params.reasons(name).len() == 0);
            assert(invalid_params.reasons(name) =~= Seq::empty());
        }
        while i < fields.len()
            invariant
                i <= fields.len(),
                invalid_params.wf(),
                all_limits_are_numbers(fields@),
                forall|name: Seq<char>| #[trigger]
                    invalid_params.reasons(name) == collected(fields@.take(i as int), name),
            decreases fields.len() - i,
        {
            let field = &fields[i];
            let wire_name = to_mixed_case(field.0.as_str());
            let ghost at_field = invalid_params;
            let mut j: usize = 0;
            while j < field.1.len()
                invariant
                    j <= field.1.len(),
                    i < fields.len(),
                    field == &fields@[i as int],
                    invalid_params.wf(),
                    all_limits_are_numbers(fields@),
                    wire_name@ == mixed_case(field.0@),
                    invalid_params.reasons(wire_name@) == at_field.reasons(wire_name@)
                        + reasons_of(field.1@.take(j as int)),
                    forall|name: Seq<char>|
                        name != wire_name@ ==> #[trigger] invalid_params.reasons(name)
                            == at_field.reasons(name),
                decreases field.1.len() - j,
            {
                let ghost before = invalid_params;
                assert(fields@[i as int].1@[j as int].limits_are_numbers());
                let reason = InvalidParamsReason::from(&field.1[j]);
                invalid_params.add(wire_name.clone(), reason);
                proof {
                    assert(field.1@.take(j + 1) == field.1@.take(j as int).push(
                        field.1@[j as int],
                    ));
                    assert(reasons_of(field.1@.take(j + 1)) == reasons_of(
                        field.1@.take(j as int),
                    ).push(reason));
                }
                j += 1;
            }
            proof {
                assert(field.1@.take(j as int) == field.1@);
                let upto = fields@.take(i + 1);
                assert(upto.drop_last() == fields@.take(i as int));
                assert(upto.last() == fields@[i as int]);
                assert forall|name: Seq<char>| #[trigger]
                    invalid_params.reasons(name) == collected(upto, name) by {
                    assert(at_field.reasons(name) == collected(fields@.take(i as int), name));
                }
            }
            i += 1;
        }
        assert(fields@.take(i as int) == fields@);
        invalid_params
    }
}

/// A problem reported to a client.
#[derive(Debug)]
pub enum Fault {
    /// A problem of the server itself.
    Static(StaticException),
    /// The request was gated by the rate limiter.
    RateLimit(RateLimitException),
    /// The body of the request was longer than allowed.
    PayloadTooLarge { limit: u64 },
    /// The body of the request was not the JSON that was asked for.
    InvalidJson { category: JsonDeserializeError },
    /// Parameters of the request were not accepted.
    InvalidParams { invalid_params: InvalidParams },
}

/// The problem of a failure inside the server.
pub fn internal_server_error() -> (fault: Fault)
    ensures
        fault == Fault::Static(StaticException::InternalServerError),
{
    Fault::Static(StaticException::InternalServerError)
}

/// The problem of a resource that does not exist.
pub fn not_found() -> (fault: Fault)
    ensures
        fault == Fault::Static(StaticException::NotFound),
{
    Fault::Static(StaticException::NotFound)
}

impl Fault {
    /// The HTTP status that goes with a problem.
    pub open spec fn status(self) -> u16 {
        match self {
            Fault::Static(StaticException::NotFound) => 404,
            Fault::Static(StaticException::InternalServerError) => 500,
            Fault::RateLimit(_) => 429,
            Fault::PayloadTooLarge { .. } => 413,
            Fault::InvalidJson { .. } => 400,
            Fault::InvalidParams { .. } => 400,
        }
    }

    /// The title that goes with a problem, if it has one of its own.
    pub open spec fn title(self) -> Option<Seq<char>> {
        match self {
            Fault::Static(_) => None,
            Fault::RateLimit(_) => Some("Your request has been rate limited."@),
            Fault::PayloadTooLarge { .. } => Some(
                "Your request payload exceeds max length limit."@,
            ),
            Fault::InvalidJson { .. } => Some("Your request JSON was malformed."@),
            Fault::InvalidParams { .. } => Some("Your request parameters are not valid."@),
        }
    }

    /// The detail that goes with a problem, if it has any.
    pub open spec fn detail(self) -> Option<Seq<char>> {
        match self {
            Fault::PayloadTooLarge { limit } => Some(limit_text(limit)),
            Fault::InvalidJson { .. } => Some(
                "The JSON might be syntactically incorrect, or it does not adhere to the endpoint's schema. Refer to the JSON category for more information."@,
            ),
            _ => None,
        }
    }

    /// The HTTP status that goes with a problem.
    pub fn to_status_code(&self) -> (code: u16)
        ensures
            code == self.status(),
            code == 400 || code == 404 || code == 413 || code == 429 || code == 500,
    {
        match self {
            Fault::Static(StaticException::NotFound) => 404,
            Fault::Static(StaticException::InternalServerError) => 500,
            Fault::RateLimit(_) => 429,
            Fault::PayloadTooLarge { .. } => 413,
            Fault::InvalidJson { .. } => 400,
            Fault::InvalidParams { .. } => 400,
        }
    }
}

/// The sentence that tells the limit of a payload.
pub open spec fn limit_text(limit: u64) -> Seq<char> {
    "The request payload limit was "@ + decimal(limit as nat) + " bytes."@
}

/// The sentence that tells the limit of a payload.
fn describe_limit(limit: u64) -> (text: String)
    ensures
        text@ == limit_text(limit),
{
    String::from_str("The request payload limit was ").concat(to_decimal(limit).as_str()).concat(
        " bytes.",
    )
}

/// A problem as it is written for the client: the problem itself, and the
/// title, status and detail that go with it.
#[derive(Debug)]
pub struct ExceptionMsg<'a> {
    pub fault: &'a Fault,
    pub title: Option<String>,
    pub status: Option<u16>,
    pub detail: Option<String>,
}

/// The text that an owned string holds, if there is one.
pub open spec fn text_of(s: Option<String>) -> Option<Seq<char>> {
    match s {
        Some(t) => Some(t@),
        None => None,
    }
}

impl<'a> ExceptionMsg<'a> {
    /// Writes a problem for the client: always with its status; with a
    /// title unless the problem is a static one; with a detail for a
    /// payload that is too large and for JSON that could not be read.
    pub fn from(fault: &'a Fault) -> (msg: ExceptionMsg<'a>)
        ensures
            *msg.fault == *fault,
            msg.status == Some(fault.status()),
            text_of(msg.title) == fault.title(),
            text_of(msg.detail) == fault.detail(),
    {
        let status = Some(fault.to_status_code());
        let (title, detail) = match fault {
            Fault::Static(_) => (None, None),
            Fault::RateLimit(_) => (Some("Your request has been rate limited.".to_owned()), None),
            Fault::PayloadTooLarge { limit } => (
                Some("Your request payload exceeds max length limit.".to_owned()),
                Some(describe_limit(*limit)),
            ),
            Fault::InvalidJson { .. } => (
                Some("Your request JSON was malformed.".to_owned()),
                Some(
                    "The JSON might be syntactically incorrect, or it does not adhere to the endpoint's schema. Refer to the JSON category for more information.".to_owned(),
                ),
            ),
            Fault::InvalidParams { .. } => (
                Some("Your request parameters are not valid.".to_owned()),
                None,
            ),
        };
        ExceptionMsg { fault, title, status, detail }
    }
}

} // verus!
