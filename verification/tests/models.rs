use warden::models::{InvalidUuid, UserUuid};
use warden::payload::ResponseBuilder;

#[test]
fn uuid_reads_as_hyphenated_lower_case() {
    let id = UserUuid(0x936DA01F_9ABD_4D9D_80C7_02AF85C822A8);
    assert_eq!(id.text(), "936da01f-9abd-4d9d-80c7-02af85c822a8");
    assert_eq!(id.to_query_parameter(), "user_uuid=936da01f-9abd-4d9d-80c7-02af85c822a8");
    assert_eq!(UserUuid(0).text(), "00000000-0000-0000-0000-000000000000");
    assert_eq!(UserUuid(u128::MAX).text(), "ffffffff-ffff-ffff-ffff-ffffffffffff");
    assert_eq!(UserUuid(1).text(), "00000000-0000-0000-0000-000000000001");
}

#[test]
fn uuid_parses_what_it_prints() {
    let id = UserUuid(0x936DA01F_9ABD_4D9D_80C7_02AF85C822A8);
    assert_eq!(UserUuid::parse_str(&id.text()), Ok(id));
    assert_eq!(
        UserUuid::parse_str("936DA01F9ABD4d9d80C702AF85C822A8"),
        Ok(id)
    );
    assert_eq!(UserUuid::parse_str("not a uuid"), Err(InvalidUuid));
    assert_eq!(UserUuid::parse_str(""), Err(InvalidUuid));
    assert_eq!(UserUuid::from(5u128), UserUuid(5));
    assert_eq!(*UserUuid(7).as_ref(), 7);
}

#[test]
fn builder_sets_status_and_headers() {
    let response = ResponseBuilder::ok()
        .header("a".to_string(), "1".to_string())
        .next_page_uri("/users?page=2".to_string())
        .header("a".to_string(), "2".to_string())
        .body("hello");
    assert_eq!(response.status_code(), 200);
    assert_eq!(response.value(), &Some("hello"));
    assert_eq!(
        response.headers(),
        &vec![
            ("a".to_string(), "2".to_string()),
            ("x-next".to_string(), "/users?page=2".to_string())
        ]
    );
}

#[test]
fn created_response_can_be_empty_and_located() {
    let response = ResponseBuilder::created()
        .content_uri("/users/1".to_string())
        .empty::<String>();
    assert_eq!(response.status_code(), 201);
    assert_eq!(response.value(), &None);
    assert_eq!(
        response.headers(),
        &vec![("Location".to_string(), "/users/1".to_string())]
    );
    let plain = ResponseBuilder::new(204).empty::<u8>();
    assert_eq!(plain.status_code(), 204);
    assert!(plain.headers().is_empty());
}
