use backend::config::Config;
use backend::error::ApiError;
use backend::middleware::auth::{authenticate_bearer, AuthenticatedUser};
use backend::response::ApiResponse;
use backend::services::auth::AuthService;
use backend::services::extractor::claims_from_request;

fn config() -> Config {
    Config {
        database_url: String::new(),
        jwt_secret: "s3cret".into(),
        jwt_access_expiry: 900,
        jwt_refresh_expiry: 7,
        google_client_id: String::new(),
        google_client_secret: String::new(),
        google_redirect_url: String::new(),
        frontend_url: String::new(),
        cookie_secure: true,
    }
}

fn token(user_id: u128, email: &str) -> String {
    AuthService::new("s3cret".into(), 900, 7).generate_access_token(user_id, email).unwrap()
}

#[test]
fn bearer_authentication() {
    let t = token(3, "c@d.e");
    let header = format!("Bearer {t}");
    assert_eq!(
        authenticate_bearer(&config(), Some(&header)),
        Ok(AuthenticatedUser { user_id: 3, email: "c@d.e".into() })
    );
    assert_eq!(authenticate_bearer(&config(), None), Err(401));
    assert_eq!(authenticate_bearer(&config(), Some(&t)), Err(401));
    assert_eq!(authenticate_bearer(&config(), Some("Bearer nonsense")), Err(401));
}

#[test]
fn claims_from_header_or_cookie() {
    let a = token(1, "a@x.y");
    let b = token(2, "b@x.y");
    let header = format!("Bearer {a}");
    assert_eq!(claims_from_request(&config(), Some(&header), Some(&b)).unwrap().user_id, 1);
    assert_eq!(claims_from_request(&config(), None, Some(&b)).unwrap().user_id, 2);
    assert_eq!(claims_from_request(&config(), Some("Basic abc"), Some(&b)).unwrap().user_id, 2);
    assert_eq!(claims_from_request(&config(), None, None), Err(ApiError::Unauthorized));
    assert_eq!(claims_from_request(&config(), None, Some("junk")), Err(ApiError::InvalidToken));
}

#[test]
fn success_answers() {
    let ok = ApiResponse::ok(5);
    assert_eq!(ok.status_code(), 200);
    assert_eq!(ok.into_parts(), (200, 5));
    assert_eq!(ApiResponse::created("x").into_parts(), (201, "x"));
}
