use oidc_provider::error::{
    validate, AppError, InternalError, STATUS_BAD_REQUEST, STATUS_FORBIDDEN, STATUS_FOUND,
    STATUS_INTERNAL_SERVER_ERROR, STATUS_NOT_FOUND, STATUS_OK, STATUS_UNAUTHORIZED,
};

#[test]
fn status_codes() {
    assert_eq!(STATUS_OK, 200);
    assert_eq!(STATUS_FOUND, 302);
    assert_eq!(STATUS_BAD_REQUEST, 400);
    assert_eq!(STATUS_UNAUTHORIZED, 401);
    assert_eq!(STATUS_FORBIDDEN, 403);
    assert_eq!(STATUS_NOT_FOUND, 404);
    assert_eq!(STATUS_INTERNAL_SERVER_ERROR, 500);
}

#[test]
fn each_user_visible_error_has_its_status() {
    assert_eq!(AppError::bad_req("x").status_code(), 400);
    assert_eq!(AppError::bad_auth_session("x").status_code(), 400);
    assert_eq!(AppError::Unauthorized.status_code(), 401);
    assert_eq!(AppError::NotFound.status_code(), 404);
    assert_eq!(AppError::InternalError.status_code(), 500);
}

#[test]
fn each_user_visible_error_has_its_message() {
    assert_eq!(AppError::bad_req("'redirect_uri' is required").message(), "'redirect_uri' is required");
    assert_eq!(AppError::bad_auth_session("no <scope>").message(), "no <scope>");
    assert_eq!(AppError::InternalError.message(), "An internal error occurred. Please try again later.");
    assert_eq!(AppError::Unauthorized.message(), "Not Authorized");
    assert_eq!(AppError::NotFound.message(), "not found");
}

#[test]
fn constructors_give_the_right_variants() {
    assert!(matches!(AppError::bad_req("m"), AppError::ValidationError { msg } if msg == "m"));
    assert!(matches!(AppError::bad_auth_session("m"), AppError::InvalidAuthSession { msg } if msg == "m"));
    assert!(matches!(InternalError::query_fail("q"), InternalError::QueryError { msg } if msg == "q"));
}

#[test]
fn internal_errors_are_shown_as_not_found_or_generic() {
    assert!(matches!(InternalError::NotFound.to_user(), AppError::NotFound));
    assert!(matches!(InternalError::ConnectionError.to_user(), AppError::InternalError));
    assert!(matches!(InternalError::query_fail("select failed").to_user(), AppError::InternalError));
    assert!(matches!(InternalError::SessionError.to_user(), AppError::InternalError));
    assert_eq!(InternalError::query_fail("select failed").to_user().message(), "An internal error occurred. Please try again later.");
}

#[test]
fn internal_errors_have_status_and_log_text() {
    assert_eq!(InternalError::NotFound.status_code(), 404);
    assert_eq!(InternalError::ConnectionError.status_code(), 500);
    assert_eq!(InternalError::query_fail("x").status_code(), 500);
    assert_eq!(InternalError::SessionError.status_code(), 500);
    assert_eq!(InternalError::ConnectionError.message(), "db connection error");
    assert_eq!(InternalError::query_fail("error loading token").message(), "query: error loading token");
    assert_eq!(InternalError::NotFound.message(), "not found");
    assert_eq!(InternalError::SessionError.message(), "session error");
}

#[test]
fn validate_fails_with_the_message() {
    assert_eq!(validate(true, "Expired code").unwrap(), "");
    let e = validate(false, "Expired code").unwrap_err();
    assert_eq!(e.status_code(), 400);
    assert_eq!(e.message(), "Expired code");
}
