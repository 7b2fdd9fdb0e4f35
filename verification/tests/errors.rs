use backend::error::ApiError;

#[test]
fn response_parts_of_each_error() {
    let cases = [
        (ApiError::InvalidCredentials, 401, "INVALID_CREDENTIALS", "Invalid credentials"),
        (ApiError::UserAlreadyExists, 409, "USER_ALREADY_EXISTS", "User already exists"),
        (ApiError::UserNotFound, 404, "USER_NOT_FOUND", "User not found"),
        (ApiError::InvoiceNotFound, 404, "INVOICE_NOT_FOUND", "Invoice not found"),
        (ApiError::InvalidToken, 401, "INVALID_TOKEN", "Invalid token"),
        (ApiError::TokenExpired, 401, "TOKEN_EXPIRED", "Token expired"),
        (ApiError::Unauthorized, 401, "UNAUTHORIZED", "Unauthorized"),
        (ApiError::PasswordHashError("bcrypt".into()), 500, "PASSWORD_HASH_ERROR", "Password processing error"),
        (ApiError::InternalError("boom".into()), 500, "INTERNAL_ERROR", "Internal server error"),
        (ApiError::DatabaseError("pool timed out".into()), 500, "DATABASE_ERROR", "Database error"),
    ];
    for (e, status, code, message) in cases {
        let (s, c, m) = e.response_parts();
        assert_eq!((s, c, m.as_str()), (status, code, message), "{e:?}");
    }
}

#[test]
fn display_texts() {
    assert_eq!(ApiError::PasswordHashError("x".into()).to_string(), "Password hash error");
    assert_eq!(ApiError::InternalError("x".into()).to_string(), "Internal server error");
    assert_eq!(ApiError::DatabaseError("x".into()).to_string(), "Database error");
    assert_eq!(ApiError::UserNotFound.to_string(), "User not found");
}

#[test]
fn details_never_reach_the_client() {
    let a = ApiError::InternalError("secret detail".into()).response_parts();
    let b = ApiError::InternalError("other".into()).response_parts();
    assert_eq!(a, b);
    assert!(!a.2.contains("secret"));
}
