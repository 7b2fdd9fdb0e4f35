//! The error type of the API and the HTTP answer each error gets.
use vstd::prelude::*;

verus! {

/// Errors of the API. Internal and database errors carry the text of the
/// underlying error, which is logged and never sent to the client.
#[derive(Debug, Clone, PartialEq, Eq)]
pub enum ApiError {
    InvalidCredentials,
    UserAlreadyExists,
    UserNotFound,
    InvoiceNotFound,
    InvalidToken,
    TokenExpired,
    PasswordHashError(String),
    InternalError(String),
    DatabaseError(String),
    Unauthorized,
}

impl ApiError {
    /// The HTTP status of the answer.
    pub open spec fn spec_status(&self) -> u16 {
        match self {
            ApiError::InvalidCredentials => 401,
            ApiError::UserAlreadyExists => 409,
            ApiError::UserNotFound => 404,
            ApiError::InvoiceNotFound => 404,
            ApiError::InvalidToken => 401,
            ApiError::TokenExpired => 401,
            ApiError::Unauthorized => 401,
            ApiError::PasswordHashError(_) => 500,
            ApiError::InternalError(_) => 500,
            ApiError::DatabaseError(_) => 500,
        }
    }

    /// The machine-readable code in the answer's body.
    pub open spec fn spec_code(&self) -> Seq<char> {
        match self {
            ApiError::InvalidCredentials => "INVALID_CREDENTIALS"@,
            ApiError::UserAlreadyExists => "USER_ALREADY_EXISTS"@,
            ApiError::UserNotFound => "USER_NOT_FOUND"@,
            ApiError::InvoiceNotFound => "INVOICE_NOT_FOUND"@,
            ApiError::InvalidToken => "INVALID_TOKEN"@,
            ApiError::TokenExpired => "TOKEN_EXPIRED"@,
            ApiError::Unauthorized => "UNAUTHORIZED"@,
            ApiError::PasswordHashError(_) => "PASSWORD_HASH_ERROR"@,
            ApiError::InternalError(_) => "INTERNAL_ERROR"@,
            ApiError::DatabaseError(_) => "DATABASE_ERROR"@,
        }
    }

    /// The error's display text.
    pub open spec fn spec_display(&self) -> Seq<char> {
        match self {
            ApiError::InvalidCredentials => "Invalid credentials"@,
            ApiError::UserAlreadyExists => "User already exists"@,
            ApiError::UserNotFound => "User not found"@,
            ApiError::InvoiceNotFound => "Invoice not found"@,
            ApiError::InvalidToken => "Invalid token"@,
            ApiError::TokenExpired => "Token expired"@,
            ApiError::Unauthorized => "Unauthorized"@,
            ApiError::PasswordHashError(_) => "Password hash error"@,
            ApiError::InternalError(_) => "Internal server error"@,
            ApiError::DatabaseError(_) => "Database error"@,
        }
    }

    /// The human-readable message in the answer's body.
    pub open spec fn spec_client_message(&self) -> Seq<char> {
        match self {
            ApiError::PasswordHashError(_) => "Password processing error"@,
            _ => self.spec_display(),
        }
    }

    /// An error the server is to blame for; its answer is logged.
    pub open spec fn spec_is_server_fault(&self) -> bool {
        match self {
            ApiError::InternalError(_) | ApiError::DatabaseError(_) => true,
            _ => false,
        }
    }

    pub fn status_code(&self) -> (r: u16)
        ensures
            r == self.spec_status(),
    {
        match self {
            ApiError::InvalidCredentials => 401,
            ApiError::UserAlreadyExists => 409,
            ApiError::UserNotFound => 404,
            ApiError::InvoiceNotFound => 404,
            ApiError::InvalidToken => 401,
            ApiError::TokenExpired => 401,
            ApiError::Unauthorized => 401,
            ApiError::PasswordHashError(_) => 500,
            ApiError::InternalError(_) => 500,
            ApiError::DatabaseError(_) => 500,
        }
    }

    pub fn error_code(&self) -> (r: &'static str)
        ensures
            r@ == self.spec_code(),
    {
        match self {
            ApiError::InvalidCredentials => "INVALID_CREDENTIALS",
            ApiError::UserAlreadyExists => "USER_ALREADY_EXISTS",
            ApiError::UserNotFound => "USER_NOT_FOUND",
            ApiError::InvoiceNotFound => "INVOICE_NOT_FOUND",
            ApiError::InvalidToken => "INVALID_TOKEN",
            ApiError::TokenExpired => "TOKEN_EXPIRED",
            ApiError::Unauthorized => "UNAUTHORIZED",
            ApiError::PasswordHashError(_) => "PASSWORD_HASH_ERROR",
            ApiError::InternalError(_) => "INTERNAL_ERROR",
            ApiError::DatabaseError(_) => "DATABASE_ERROR",
        }
    }

    /// The display text of the error.
    pub fn to_string(&self) -> (r: String)
        ensures
            r@ == self.spec_display(),
    {
        let s: &str = match self {
            ApiError::InvalidCredentials => "Invalid credentials",
            ApiError::UserAlreadyExists => "User already exists",
            ApiError::UserNotFound => "User not found",
            ApiError::InvoiceNotFound => "Invoice not found",
            ApiError::InvalidToken => "Invalid token",
            ApiError::TokenExpired => "Token expired",
            ApiError::Unauthorized => "Unauthorized",
            ApiError::PasswordHashError(_) => "Password hash error",
            ApiError::InternalError(_) => "Internal server error",
            ApiError::DatabaseError(_) => "Database error",
        };
        s.to_owned()
    }

    /// The message sent to the client.
    pub fn client_message(&self) -> (r: String)
        ensures
            r@ == self.spec_client_message(),
    {
        match self {
            ApiError::PasswordHashError(_) => "Password processing error".to_owned(),
            _ => self.to_string(),
        }
    }

    /// Status, code and message of the error answer, whose body is
    /// `{"status":"error","data":null,"error":{"code":..,"message":..}}`.
    pub fn response_parts(&self) -> (r: (u16, &'static str, String))
        ensures
            r.0 == self.spec_status(),
            r.1@ == self.spec_code(),
            r.2@ == self.spec_client_message(),
    {
        (self.status_code(), self.error_code(), self.client_message())
    }
}

} // verus!
