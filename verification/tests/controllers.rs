use chrono::NaiveDateTime;
use warden::controllers::user::{created_response, decide_creation};
use warden::controllers::users::{check_field, CreateUserRequest, UserResponse, UsersResponse};
use warden::exception::Fault;
use warden::models::{NewUser, UserUuid};

fn moment() -> NaiveDateTime {
    chrono::DateTime::from_timestamp(1_600_000_000, 0).unwrap().naive_utc()
}

fn user(user_name: &str, display_name: &str, email: &str, password: &str) -> NewUser {
    NewUser {
        user_name: user_name.to_string(),
        display_name: display_name.to_string(),
        email: email.to_string(),
        password: password.to_string(),
        created_at: moment(),
        updated_at: moment(),
        is_active: true,
        is_verified: false,
    }
}

#[test]
fn a_good_user_with_free_names_is_created() {
    let created = decide_creation(user("alice", "Alice", "alice@example.com", "secret1"), false, false)
        .unwrap();
    assert_eq!(created.user_name, "alice");
    assert!(created.is_active);
    let response = created_response::<String>();
    assert_eq!(response.status_code(), 201);
    assert_eq!(response.value(), &None);
    assert!(response.headers().is_empty());
}

#[test]
fn taken_names_are_reported() {
    let refused = decide_creation(user("alice", "Alice", "alice@example.com", "secret1"), true, true)
        .unwrap_err();
    assert_eq!(refused.to_status_code(), 400);
    match refused {
        Fault::InvalidParams { invalid_params } => {
            let text = format!("{:?}", invalid_params);
            assert!(text.contains("(\"userName\", [AlreadyExists])"));
            assert!(text.contains("(\"emailAddress\", [AlreadyExists])"));
        }
        other => panic!("invalid params expected, got {:?}", other),
    }
    let refused = decide_creation(user("alice", "Alice", "alice@example.com", "secret1"), false, true)
        .unwrap_err();
    match refused {
        Fault::InvalidParams { invalid_params } => {
            let text = format!("{:?}", invalid_params);
            assert!(!text.contains("userName"));
            assert!(text.contains("(\"emailAddress\", [AlreadyExists])"));
        }
        other => panic!("invalid params expected, got {:?}", other),
    }
}

#[test]
fn broken_rules_come_before_taken_names() {
    let refused = decide_creation(user("al", "Alice", "not an address", "12345"), true, true)
        .unwrap_err();
    match refused {
        Fault::InvalidParams { invalid_params } => {
            let text = format!("{:?}", invalid_params);
            assert!(text.contains("(\"userName\", [MustHaveLengthBetween { min: Some(3), max: Some(40) }])"));
            assert!(text.contains("(\"email\", [MustBeEmailAddress])"));
            assert!(text.contains("(\"password\", [MustHaveLengthBetween { min: Some(6), max: None }])"));
            assert!(!text.contains("AlreadyExists"));
            assert!(!text.contains("displayName"));
        }
        other => panic!("invalid params expected, got {:?}", other),
    }
}

#[test]
fn request_rules() {
    let good = CreateUserRequest {
        user_name: "bob".to_string(),
        email: "bob@example.com".to_string(),
        display_name: "Bob".to_string(),
        password: "123456".to_string(),
    };
    assert!(good.validate().is_ok());
    let bad = CreateUserRequest {
        user_name: "x".repeat(41),
        email: "bob".to_string(),
        display_name: "Bo".to_string(),
        password: "123456".to_string(),
    };
    let found = bad.validate().unwrap_err();
    let names: Vec<&str> = found.iter().map(|f| f.0.as_str()).collect();
    assert_eq!(names, vec!["user_name", "email", "display_name"]);
    assert_eq!(found[0].1[0].code, "length");
    assert_eq!(found[0].1[0].min.unwrap().unsigned, Some(3));
    assert_eq!(found[0].1[0].max.unwrap().unsigned, Some(40));
    assert_eq!(found[0].1[0].max.unwrap().float.unwrap().bits, 40.0f64.to_bits());
    assert_eq!(found[0].1[0].min.unwrap().float.unwrap().bits, 3.0f64.to_bits());
    assert_eq!(found[1].1[0].code, "email");
    assert_eq!(found[2].1[0].code, "length");
    assert!(found[2].1[0].max.is_none());
}

#[test]
fn stored_user_rules() {
    assert!(user("abc", "abc", "a@b.co", "123456").validate().is_ok());
    let long_mail = format!("a@{}.com", "b".repeat(260));
    let found = user("abc", "abc", &long_mail, "123456").validate().unwrap_err();
    assert_eq!(found.len(), 1);
    assert_eq!(found[0].0, "email");
    assert_eq!(found[0].1[0].code, "length");
    assert_eq!(found[0].1[0].max.unwrap().unsigned, Some(255));
    assert_eq!(found[0].1[0].max.unwrap().float.unwrap().bits, 255.0f64.to_bits());
    let found = user("abc", "abc", "a@b.co", "12345").validate().unwrap_err();
    assert_eq!(found[0].1[0].min.unwrap().float.unwrap().bits, 6.0f64.to_bits());
}

#[test]
fn field_lengths_count_characters() {
    assert!(check_field("\u{e4}\u{f6}\u{fc}", Some(3), Some(3), false).is_empty());
    assert_eq!(check_field("ab", Some(3), None, false).len(), 1);
    assert_eq!(check_field("abcd", None, Some(3), false).len(), 1);
    assert!(check_field("anything", None, None, false).is_empty());
    assert_eq!(check_field("x", Some(3), None, true).len(), 2);
    assert!(check_field("someone@example.com", None, None, true).is_empty());
    assert_eq!(check_field("someone", None, None, true).len(), 1);
    assert_eq!(check_field("", None, None, true).len(), 1);
    let odd = check_field("ab", Some(5), Some(7), false);
    assert_eq!(odd[0].min.unwrap().unsigned, Some(5));
    assert!(odd[0].min.unwrap().float.is_none());
}

#[test]
fn responses_hold_users() {
    let shown = UserResponse {
        id: UserUuid(1),
        user_name: "bob".to_string(),
        display_name: "Bob".to_string(),
        email: "bob@example.com".to_string(),
        is_active: true,
        is_verified: false,
    };
    let all = UsersResponse(vec![shown]);
    assert_eq!(all.0.len(), 1);
    assert_eq!(all.0[0].id, UserUuid(1));
}
