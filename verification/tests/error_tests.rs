use idryos_auth::error::{AppError, ErrorBody, ErrorKind};

#[test]
fn each_class_has_its_status() {
    assert_eq!(AppError::Database("d".to_string()).status_code(), 500);
    assert_eq!(AppError::Validation("v".to_string()).status_code(), 400);
    assert_eq!(AppError::Authentication("a".to_string()).status_code(), 401);
    assert_eq!(AppError::Authorization("z".to_string()).status_code(), 403);
    assert_eq!(AppError::NotFound("n".to_string()).status_code(), 404);
    assert_eq!(AppError::Internal("i".to_string()).status_code(), 500);
}

#[test]
fn failure_is_reported_as_one_object() {
    let body = AppError::NotFound("User not found".to_string()).into_response();
    assert_eq!(body, ErrorBody { error: "User not found".to_string(), status: 404 });
}

#[test]
fn kind_and_message() {
    let e = AppError::Authorization("forbidden".to_string());
    assert_eq!(e.kind(), ErrorKind::Authorization);
    assert_eq!(e.message(), "forbidden");
}
