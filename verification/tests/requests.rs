use revzen_backend::error::{
    outcome_status, STATUS_FAILURE, STATUS_GONE, STATUS_NOT_FOUND, STATUS_OK,
    STATUS_UNPROCESSABLE,
};
use revzen_backend::{ApiError, Client, GetUserRequest};

#[test]
fn client_with_server_version_is_admitted() {
    let client = Client::new(301, 4).unwrap();
    assert_eq!(client.user(), 301);
    assert_eq!(client.client_version(), 4);
}

#[test]
fn client_with_other_version_is_refused() {
    assert_eq!(Client::new(301, 3), Err(ApiError::Invalid));
    assert_eq!(Client::new(301, 5), Err(ApiError::Invalid));
    assert_eq!(Client::new(-1, 0), Err(ApiError::Invalid));
}

#[test]
fn request_with_server_version_keeps_its_fields() {
    let request = GetUserRequest::new(-7, 4, 12).unwrap();
    assert_eq!(request.user(), -7);
    assert_eq!(request.client_version(), 4);
    assert_eq!(request.friendcode(), 12);
}

#[test]
fn request_with_other_version_is_refused() {
    assert_eq!(GetUserRequest::new(301, 3, 2), Err(ApiError::Invalid));
    assert_eq!(GetUserRequest::new(301, u32::MAX, 2), Err(ApiError::Invalid));
}

#[test]
fn each_error_has_its_status() {
    assert_eq!(ApiError::Invalid.status_code(), 422);
    assert_eq!(ApiError::CallerNotFound.status_code(), 404);
    assert_eq!(ApiError::TargetNotFound.status_code(), 410);
    assert_eq!(ApiError::Storage.status_code(), 500);
}

#[test]
fn status_constants_have_their_numbers() {
    assert_eq!(STATUS_OK, 200);
    assert_eq!(STATUS_UNPROCESSABLE, 422);
    assert_eq!(STATUS_NOT_FOUND, 404);
    assert_eq!(STATUS_GONE, 410);
    assert_eq!(STATUS_FAILURE, 500);
}

#[test]
fn outcome_status_is_ok_for_a_body() {
    assert_eq!(outcome_status(&Ok::<u8, ApiError>(0)), 200);
    assert_eq!(outcome_status(&Err::<u8, ApiError>(ApiError::TargetNotFound)), 410);
}
