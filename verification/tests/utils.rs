use warden::config::{default_log_level, deserialize_log_level, parse_level, LogLevel};
use warden::error::{handle_err, DatabaseFault, Error, ErrorKind, QueryFailure, QueryFault};
use warden::exception::{
    Fault, JsonCategory, JsonDeserializeError, RateLimitException, StaticException,
};
use warden::utils::{
    flatten_result, handle_rejection, invalid_json, ok_or_internal_error, payload_too_large,
    some_or_internal_error, validate_pass,
};

#[test]
fn flatten_result_keeps_the_first_error() {
    let ok: Result<Result<u8, &str>, &str> = Ok(Ok(1));
    let inner: Result<Result<u8, &str>, &str> = Ok(Err("inner"));
    let outer: Result<Result<u8, &str>, &str> = Err("outer");
    assert_eq!(flatten_result(ok), Ok(1));
    assert_eq!(flatten_result(inner), Err("inner"));
    assert_eq!(flatten_result(outer), Err("outer"));
}

#[test]
fn errors_become_internal_server_errors() {
    let ok: Result<u8, &str> = Ok(1);
    let failed: Result<u8, &str> = Err("x");
    assert_eq!(ok_or_internal_error(ok).unwrap(), 1);
    assert!(matches!(
        ok_or_internal_error(failed),
        Err(Fault::Static(StaticException::InternalServerError))
    ));
    assert_eq!(some_or_internal_error(Some(2)).unwrap(), 2);
    assert!(matches!(
        some_or_internal_error::<u8>(None),
        Err(Fault::Static(StaticException::InternalServerError))
    ));
}

#[test]
fn passwords_of_six_to_twenty_five_characters_pass() {
    assert!(validate_pass("123456").is_ok());
    assert!(validate_pass(&"x".repeat(25)).is_ok());
    assert!(validate_pass("\u{e4}\u{f6}\u{fc}\u{e4}\u{f6}\u{fc}").is_ok());
    let short = validate_pass("12345").unwrap_err();
    assert_eq!(short.code, "Password should contain:\n At least 6 characters");
    assert!(short.min.is_none() && short.max.is_none() && short.equal.is_none());
    assert!(validate_pass(&"x".repeat(26)).is_err());
    assert!(validate_pass("").is_err());
    assert!(validate_pass("123\n456").is_err());
}

#[test]
fn log_levels_are_read_ignoring_case() {
    assert_eq!(default_log_level(), LogLevel::Debug);
    assert_eq!(deserialize_log_level("info"), LogLevel::Info);
    assert_eq!(deserialize_log_level("INFO"), LogLevel::Info);
    assert_eq!(deserialize_log_level("Off"), LogLevel::Off);
    assert_eq!(deserialize_log_level("error"), LogLevel::Error);
    assert_eq!(deserialize_log_level("wArN"), LogLevel::Warn);
    assert_eq!(deserialize_log_level("trace"), LogLevel::Trace);
    assert_eq!(deserialize_log_level("debug"), LogLevel::Debug);
    assert_eq!(deserialize_log_level("verbose"), LogLevel::Debug);
    assert_eq!(deserialize_log_level(""), LogLevel::Debug);
    assert_eq!(deserialize_log_level(" info"), LogLevel::Debug);
}

#[test]
fn query_faults_become_errors() {
    match Error::from_query(QueryFault::Database(DatabaseFault::UniqueViolation)).kind() {
        ErrorKind::DatabaseError(text) => {
            assert_eq!(text, "A unique constraint was violated in the database")
        }
        other => panic!("database error expected, got {:?}", other),
    }
    match Error::from_query(QueryFault::Database(DatabaseFault::ForeignKeyViolation)).kind() {
        ErrorKind::DatabaseError(text) => {
            assert_eq!(text, "A foreign key constraint was violated in the database")
        }
        other => panic!("database error expected, got {:?}", other),
    }
    match Error::from_query(QueryFault::NotFound).kind() {
        ErrorKind::NotFound { row_type } => assert_eq!(row_type, "Not implemented"),
        other => panic!("not found expected, got {:?}", other),
    }
    match Error::from_query(QueryFault::Other).kind() {
        ErrorKind::InternalServerError(text) => assert_eq!(text, "Internal Server Error"),
        other => panic!("internal server error expected, got {:?}", other),
    }
    assert_eq!(
        DatabaseFault::SerializationFailure.message(),
        "Value failed to serialize in the database"
    );
    assert_eq!(
        DatabaseFault::UnableToSendCommand.message(),
        "Database protocol violation, possibly too many bound parameters"
    );
    assert_eq!(DatabaseFault::Unknown.message(), "An unknwon error occurred in the database");
}

#[test]
fn handle_err_names_the_row_type() {
    let missing = QueryFailure { fault: QueryFault::NotFound, debug: "NotFound".to_string() };
    match handle_err("User".to_string(), missing).kind() {
        ErrorKind::NotFound { row_type } => assert_eq!(row_type, "User"),
        other => panic!("not found expected, got {:?}", other),
    }
    let broken = QueryFailure { fault: QueryFault::Other, debug: "RollbackTransaction".to_string() };
    match handle_err("User".to_string(), broken).kind() {
        ErrorKind::DatabaseError(text) => assert_eq!(text, "Database error: RollbackTransaction"),
        other => panic!("database error expected, got {:?}", other),
    }
    assert!(matches!(Error::from(ErrorKind::FromFailure).kind(), ErrorKind::FromFailure));
}

#[test]
fn rejections_become_faults() {
    assert!(matches!(
        handle_rejection(None, true),
        Fault::Static(StaticException::NotFound)
    ));
    assert!(matches!(
        handle_rejection(None, false),
        Fault::Static(StaticException::InternalServerError)
    ));
    let own = Fault::RateLimit(RateLimitException { wait_time_millis: 9 });
    match handle_rejection(Some(own), true) {
        Fault::RateLimit(e) => assert_eq!(e.wait_time_millis, 9),
        other => panic!("rate limit expected, got {:?}", other),
    }
    assert!(matches!(payload_too_large(), Fault::PayloadTooLarge { limit: 65536 }));
    assert!(matches!(
        invalid_json(JsonCategory::Eof),
        Fault::InvalidJson { category: JsonDeserializeError::PrematureEnd }
    ));
}

fn as_filter(level: Option<LogLevel>) -> Option<log::LevelFilter> {
    level.map(|l| match l {
        LogLevel::Off => log::LevelFilter::Off,
        LogLevel::Error => log::LevelFilter::Error,
        LogLevel::Warn => log::LevelFilter::Warn,
        LogLevel::Info => log::LevelFilter::Info,
        LogLevel::Debug => log::LevelFilter::Debug,
        LogLevel::Trace => log::LevelFilter::Trace,
    })
}

#[test]
fn levels_are_parsed_as_the_logger_parses_them() {
    let texts = [
        "off", "OFF", "oFf", "error", "ERROR", "Error", "warn", "WARN", "info", "Info", "debug",
        "DEBUG", "trace", "TRACE", "tRaCe", "", "of", "offf", "warning", "inf0", " info",
        "info ", "err\u{f6}r", "\u{130}nfo", "deb\u{fc}g", "OFF\n",
    ];
    for text in texts {
        assert_eq!(as_filter(parse_level(text)), text.parse::<log::LevelFilter>().ok());
    }
}
