use revzen_backend::error::outcome_status;
use rocket::serde::json::serde_json;
use revzen_backend::{
    api_get_user, get_user, ApiError, GetUserRequest, User, UserDetails, UserTable,
    BACKEND_VERSION,
};

fn row(id: i64, friendcode: i32, username: &str, main_pet: i32) -> User {
    User { id, friendcode, username: String::from(username), main_pet, revising: false }
}

fn two_users() -> UserTable {
    let mut db = UserTable::new();
    assert!(db.insert(row(301, 1, "bob", 3)));
    assert!(db.insert(row(302, 2, "alice", 5)));
    db
}

#[test]
fn backend_version_is_four() {
    assert_eq!(BACKEND_VERSION, 4);
}

#[test]
fn lookup_of_stored_friendcode_returns_its_holder() {
    let db = two_users();
    let response = get_user(&db, 301, 4, 2);
    assert_eq!(outcome_status(&response), 200);
    assert_eq!(
        response,
        Ok(UserDetails { friendcode: 2, username: String::from("alice"), main_pet: 5 })
    );
}

#[test]
fn lookup_of_own_friendcode_returns_caller() {
    let db = two_users();
    assert_eq!(
        get_user(&db, 301, 4, 1),
        Ok(UserDetails { friendcode: 1, username: String::from("bob"), main_pet: 3 })
    );
}

#[test]
fn wrong_version_is_refused_whatever_else_is_sent() {
    let db = two_users();
    for version in [0u32, 1, 3, 5, u32::MAX] {
        assert_eq!(get_user(&db, 301, version, 2), Err(ApiError::Invalid));
        assert_eq!(get_user(&db, 999, version, 2), Err(ApiError::Invalid));
        assert_eq!(get_user(&db, 301, version, 77), Err(ApiError::Invalid));
        assert_eq!(get_user(&UserTable::new(), 0, version, 0), Err(ApiError::Invalid));
    }
}

#[test]
fn unknown_caller_is_not_found() {
    let db = two_users();
    let response = get_user(&db, 999, 4, 2);
    assert_eq!(response, Err(ApiError::CallerNotFound));
    assert_eq!(outcome_status(&response), 404);
}

#[test]
fn unknown_caller_and_unknown_friendcode_is_not_found() {
    let db = two_users();
    let response = get_user(&db, 999, 4, 77);
    assert_eq!(response, Err(ApiError::CallerNotFound));
    assert_eq!(outcome_status(&response), 404);
}

#[test]
fn unknown_friendcode_is_gone() {
    let db = two_users();
    let response = get_user(&db, 302, 4, 77);
    assert_eq!(response, Err(ApiError::TargetNotFound));
    assert_eq!(outcome_status(&response), 410);
}

#[test]
fn empty_table_knows_no_caller() {
    let db = UserTable::new();
    assert_eq!(get_user(&db, 301, 4, 2), Err(ApiError::CallerNotFound));
}

#[test]
fn friendcode_is_not_taken_for_an_id() {
    let db = two_users();
    assert_eq!(get_user(&db, 2, 4, 2), Err(ApiError::CallerNotFound));
    assert_eq!(get_user(&db, 301, 4, 302), Err(ApiError::TargetNotFound));
}

#[test]
fn repeated_lookup_gives_the_same_response() {
    let db = two_users();
    for (user, code) in [(301i64, 2i32), (301, 77), (999, 2)] {
        let first = get_user(&db, user, 4, code);
        let second = get_user(&db, user, 4, code);
        assert_eq!(first, second);
    }
    assert_eq!(db.len(), 2);
}

#[test]
fn validated_request_is_served_like_its_fields() {
    let db = two_users();
    let request = GetUserRequest::new(301, 4, 2).unwrap();
    assert_eq!(api_get_user(&db, &request), get_user(&db, 301, 4, 2));
}

#[test]
fn extreme_keys_are_looked_up() {
    let mut db = UserTable::new();
    assert!(db.insert(row(i64::MIN, i32::MAX, "edge", -1)));
    assert_eq!(
        get_user(&db, i64::MIN, 4, i32::MAX),
        Ok(UserDetails { friendcode: i32::MAX, username: String::from("edge"), main_pet: -1 })
    );
    assert_eq!(get_user(&db, i64::MAX, 4, i32::MAX), Err(ApiError::CallerNotFound));
}

#[test]
fn served_lookup_has_the_documented_json_body() {
    let db = two_users();
    let details = get_user(&db, 301, 4, 2).unwrap();
    let mut body = serde_json::Map::new();
    body.insert(String::from("friendcode"), serde_json::Value::Number(serde_json::Number::from(details.friendcode)));
    body.insert(String::from("username"), serde_json::Value::String(details.username));
    body.insert(String::from("main_pet"), serde_json::Value::Number(serde_json::Number::from(details.main_pet)));
    let expected: serde_json::Value =
        serde_json::from_str("{\"friendcode\":2,\"username\":\"alice\",\"main_pet\":5}").unwrap();
    assert_eq!(serde_json::Value::Object(body), expected);
}
