use warden::exception::{
    internal_server_error, not_found, AuthenticationTokenProblemCategory, ExceptionMsg, Fault,
    Float, InvalidParams, InvalidParamsReason, JsonCategory, JsonDeserializeError, Number,
    RateLimitException, StaticException, ValidationProblem,
};

fn whole(n: u64) -> Option<Number> {
    Some(Number { unsigned: Some(n), float: Some(Float { bits: (n as f64).to_bits() }) })
}

fn fraction(x: f64) -> Option<Number> {
    Some(Number { unsigned: None, float: Some(Float { bits: x.to_bits() }) })
}

fn problem(code: &str, min: Option<Number>, max: Option<Number>, equal: Option<Number>) -> ValidationProblem {
    ValidationProblem { code: code.to_string(), min, max, equal }
}

#[test]
fn status_codes_of_faults() {
    assert_eq!(not_found().to_status_code(), 404);
    assert_eq!(internal_server_error().to_status_code(), 500);
    assert_eq!(Fault::Static(StaticException::NotFound).to_status_code(), 404);
    assert_eq!(
        Fault::RateLimit(RateLimitException { wait_time_millis: 3 }).to_status_code(),
        429
    );
    assert_eq!(Fault::PayloadTooLarge { limit: 1 }.to_status_code(), 413);
    assert_eq!(
        Fault::InvalidJson { category: JsonDeserializeError::Other }.to_status_code(),
        400
    );
    assert_eq!(
        Fault::InvalidParams { invalid_params: InvalidParams::new() }.to_status_code(),
        400
    );
}

#[test]
fn static_fault_has_neither_title_nor_detail() {
    let fault = internal_server_error();
    let msg = ExceptionMsg::from(&fault);
    assert_eq!(msg.status, Some(500));
    assert_eq!(msg.title, None);
    assert_eq!(msg.detail, None);
}

#[test]
fn rate_limit_fault_has_a_title() {
    let fault = Fault::RateLimit(RateLimitException { wait_time_millis: 500 });
    let msg = ExceptionMsg::from(&fault);
    assert_eq!(msg.status, Some(429));
    assert_eq!(msg.title.as_deref(), Some("Your request has been rate limited."));
    assert_eq!(msg.detail, None);
    match msg.fault {
        Fault::RateLimit(e) => assert_eq!(e.wait_time_millis, 500),
        other => panic!("rate limit expected, got {:?}", other),
    }
}

#[test]
fn payload_fault_tells_the_limit() {
    let fault = Fault::PayloadTooLarge { limit: 65536 };
    let msg = ExceptionMsg::from(&fault);
    assert_eq!(msg.status, Some(413));
    assert_eq!(
        msg.title.as_deref(),
        Some("Your request payload exceeds max length limit.")
    );
    assert_eq!(
        msg.detail.as_deref(),
        Some("The request payload limit was 65536 bytes.")
    );
}

#[test]
fn json_fault_has_title_and_detail() {
    let fault = Fault::InvalidJson { category: JsonDeserializeError::Syntactic };
    let msg = ExceptionMsg::from(&fault);
    assert_eq!(msg.status, Some(400));
    assert_eq!(msg.title.as_deref(), Some("Your request JSON was malformed."));
    assert_eq!(
        msg.detail.as_deref(),
        Some("The JSON might be syntactically incorrect, or it does not adhere to the endpoint's schema. Refer to the JSON category for more information.")
    );
}

#[test]
fn params_fault_has_a_title() {
    let fault = Fault::InvalidParams { invalid_params: InvalidParams::new() };
    let msg = ExceptionMsg::from(&fault);
    assert_eq!(msg.title.as_deref(), Some("Your request parameters are not valid."));
    assert_eq!(msg.detail, None);
}

#[test]
fn json_categories_map_one_to_one() {
    assert_eq!(JsonDeserializeError::from(JsonCategory::Syntax), JsonDeserializeError::Syntactic);
    assert_eq!(JsonDeserializeError::from(JsonCategory::Data), JsonDeserializeError::Semantic);
    assert_eq!(JsonDeserializeError::from(JsonCategory::Eof), JsonDeserializeError::PrematureEnd);
    assert_eq!(JsonDeserializeError::from(JsonCategory::Io), JsonDeserializeError::Other);
}

#[test]
fn invalid_params_start_empty_and_collect_reasons() {
    let mut params = InvalidParams::new();
    assert!(params.is_empty());
    params.add("userName".to_string(), InvalidParamsReason::AlreadyExists);
    assert!(!params.is_empty());
    params.add("email".to_string(), InvalidParamsReason::MustBeEmailAddress);
    params.add("userName".to_string(), InvalidParamsReason::Other);
    let text = format!("{:?}", params);
    assert!(text.contains("userName"));
    assert!(text.contains("AlreadyExists, Other"));
    assert!(text.contains("MustBeEmailAddress"));
}

#[test]
fn reasons_for_codes() {
    assert_eq!(
        InvalidParamsReason::from(&problem("email", None, None, None)),
        InvalidParamsReason::MustBeEmailAddress
    );
    assert_eq!(
        InvalidParamsReason::from(&problem("url", None, None, None)),
        InvalidParamsReason::MustBeUrl
    );
    assert_eq!(
        InvalidParamsReason::from(&problem("credit_card", None, None, None)),
        InvalidParamsReason::Other
    );
}

#[test]
fn reasons_for_ranges() {
    assert_eq!(
        InvalidParamsReason::from(&problem("range", fraction(0.5), fraction(2.5), None)),
        InvalidParamsReason::MustBeInRange {
            min: Float { bits: 0.5f64.to_bits() },
            max: Float { bits: 2.5f64.to_bits() }
        }
    );
    assert_eq!(
        InvalidParamsReason::from(&problem("range", fraction(0.5), None, None)),
        InvalidParamsReason::Other
    );
    assert_eq!(
        InvalidParamsReason::from(&problem("range", None, whole(3), None)),
        InvalidParamsReason::Other
    );
}

#[test]
fn reasons_for_lengths() {
    assert_eq!(
        InvalidParamsReason::from(&problem("length", whole(3), whole(40), None)),
        InvalidParamsReason::MustHaveLengthBetween { min: Some(3), max: Some(40) }
    );
    assert_eq!(
        InvalidParamsReason::from(&problem("length", whole(6), None, None)),
        InvalidParamsReason::MustHaveLengthBetween { min: Some(6), max: None }
    );
    assert_eq!(
        InvalidParamsReason::from(&problem("length", None, whole(255), None)),
        InvalidParamsReason::MustHaveLengthBetween { min: None, max: Some(255) }
    );
    assert_eq!(
        InvalidParamsReason::from(&problem("length", None, None, whole(8))),
        InvalidParamsReason::MustHaveLengthExactly { length: 8 }
    );
    assert_eq!(
        InvalidParamsReason::from(&problem("length", whole(1), None, whole(8))),
        InvalidParamsReason::Other
    );
    assert_eq!(
        InvalidParamsReason::from(&problem("length", None, None, None)),
        InvalidParamsReason::Other
    );
}

#[test]
fn fields_are_collected_under_their_wire_names() {
    let fields = vec![
        (
            "user_name".to_string(),
            vec![problem("length", whole(3), whole(40), None)],
        ),
        (
            "email".to_string(),
            vec![problem("length", None, whole(255), None), problem("email", None, None, None)],
        ),
    ];
    let params = InvalidParams::from_fields(&fields);
    assert!(!params.is_empty());
    let text = format!("{:?}", params);
    assert!(text.contains("\"userName\""));
    assert!(!text.contains("user_name"));
    assert!(text.contains("MustHaveLengthBetween { min: None, max: Some(255) }, MustBeEmailAddress"));
    assert!(InvalidParams::from_fields(&vec![]).is_empty());
}

#[test]
fn token_problem_categories_are_distinct() {
    assert_ne!(
        AuthenticationTokenProblemCategory::Missing,
        AuthenticationTokenProblemCategory::Malformed
    );
    assert_ne!(
        AuthenticationTokenProblemCategory::Malformed,
        AuthenticationTokenProblemCategory::Expired
    );
    let reason = InvalidParamsReason::InvalidToken {
        category: AuthenticationTokenProblemCategory::Expired,
    };
    assert_eq!(
        reason,
        InvalidParamsReason::InvalidToken { category: AuthenticationTokenProblemCategory::Expired }
    );
}
