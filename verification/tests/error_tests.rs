use noteforge::errors::ApiError;

#[test]
fn every_error_maps_to_its_fixed_status() {
    assert_eq!(ApiError::AuthenticationError.status_code(), 401);
    assert_eq!(ApiError::AuthorizationError.status_code(), 403);
    assert_eq!(ApiError::NotFound("x".to_string()).status_code(), 404);
    assert_eq!(ApiError::ValidationError("x".to_string()).status_code(), 400);
    assert_eq!(ApiError::FileError("x".to_string()).status_code(), 400);
    assert_eq!(ApiError::ClaudeError("x".to_string()).status_code(), 500);
    assert_eq!(ApiError::LaTeXError("x".to_string()).status_code(), 500);
    assert_eq!(ApiError::DatabaseError("x".to_string()).status_code(), 500);
    assert_eq!(ApiError::InternalServerError("x".to_string()).status_code(), 500);
}

#[test]
fn the_response_message_carries_the_detail() {
    assert_eq!(ApiError::AuthenticationError.message(), "Authentication failed");
    assert_eq!(ApiError::AuthorizationError.message(), "Authorization failed");
    assert_eq!(ApiError::NotFound("no such doc".to_string()).message(), "no such doc");
    assert_eq!(ApiError::ValidationError("bad input".to_string()).message(), "bad input");
    assert_eq!(ApiError::LaTeXError("compile log".to_string()).message(), "compile log");
}
