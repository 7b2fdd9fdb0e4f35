use backend::clock::Instant;
use backend::config::Config;
use backend::cookies::{CookieChange, SameSitePolicy};
use backend::error::ApiError;
use backend::handlers::auth::{
    me_response, RefreshAction, RefreshEvent, RefreshFlow, RefreshRequest, RefreshStage, UserResponse,
};
use backend::handlers::oauth::{
    frontend_callback_url, google_auth_redirect, CallbackAction, CallbackEvent, CallbackStage, GoogleCallbackFlow,
    ProfileFailure,
};
use backend::models::oauth::{GoogleCallbackParams, GoogleUserProfile};
use backend::models::token::RefreshToken;
use backend::models::user::User;
use backend::services::auth::AuthService;
use backend::services::oauth::build_oauth_client;

const NOW_US: i64 = 1_700_000_000_000_000;
const RANDOM: [u8; 32] = [0xab; 32];

fn at(micros: i64) -> Instant {
    Instant { micros, nanos: 0 }
}

fn config() -> Config {
    Config {
        database_url: "postgres://db".into(),
        jwt_secret: "s3cret".into(),
        jwt_access_expiry: 900,
        jwt_refresh_expiry: 7,
        google_client_id: "cid".into(),
        google_client_secret: "csecret".into(),
        google_redirect_url: "http://localhost:3000/auth/google/callback".into(),
        frontend_url: "http://localhost:5173/".into(),
        cookie_secure: false,
    }
}

fn user() -> User {
    User { id: 42, email: "ana@example.com".into(), password_hash: String::new(), created_at: 0, updated_at: 0 }
}

fn stored(hash: &str, expires_at: i64) -> RefreshToken {
    RefreshToken { id: 1, user_id: 42, token_hash: hash.to_string(), expires_at, created_at: 0 }
}

fn request() -> RefreshRequest {
    RefreshRequest { refresh_token: "presented-token".into() }
}

#[test]
fn refresh_rotates_tokens() {
    let cfg = config();
    let (flow, action) = RefreshFlow::start(&cfg, &request());
    let hash = AuthService::hash_token("presented-token");
    assert_eq!(action, RefreshAction::FindTokenByHash(hash.clone()));
    let (flow, action) = flow.step_at(RefreshEvent::TokenFound(Some(stored(&hash, NOW_US + 1))), at(NOW_US), &RANDOM);
    assert_eq!(action, RefreshAction::FindUserById(42));
    let (flow, action) = flow.step(RefreshEvent::UserFound(Some(user())));
    assert_eq!(action, RefreshAction::DeleteTokenByHash(hash.clone()));
    let (flow, action) = flow.step(RefreshEvent::TokenDeleted);
    let new_hash = match action {
        RefreshAction::StoreRefreshToken { user_id, token_hash, .. } => {
            assert_eq!(user_id, 42);
            token_hash
        }
        other => panic!("unexpected {other:?}"),
    };
    let (flow, action) = flow.step(RefreshEvent::TokenStored);
    assert_eq!(flow.stage(), &RefreshStage::Finished);
    let reply = match action {
        RefreshAction::Reply(Ok(reply)) => reply,
        other => panic!("unexpected {other:?}"),
    };
    assert_eq!(reply.cookies.len(), 2);
    let refresh = &reply.cookies[0];
    let access = &reply.cookies[1];
    assert_eq!(refresh.name, "refresh_token");
    assert_eq!(refresh.max_age_secs, 604_800);
    assert_eq!(refresh.same_site, SameSitePolicy::Strict);
    assert!(refresh.http_only && !refresh.secure);
    assert_eq!(refresh.path, "/");
    assert!(AuthService::verify_refresh_token_hash(&refresh.value, &new_hash));
    assert_eq!(access.name, "access_token");
    assert_eq!(access.max_age_secs, 900);
    let service = AuthService::new(cfg.jwt_secret.clone(), 900, 7);
    let claims = service.verify_access_token(&access.value).unwrap();
    assert_eq!(claims.user_id, 42);
    assert_eq!(claims.email, "ana@example.com");
    assert_eq!(reply.body.token_type, "Bearer");
    assert_eq!(reply.body.expires_in, 900);
}

#[test]
fn refresh_unknown_token() {
    let (flow, _) = RefreshFlow::start(&config(), &request());
    let (flow, action) = flow.step(RefreshEvent::TokenFound(None));
    assert_eq!(action, RefreshAction::Reply(Err(ApiError::InvalidToken)));
    assert_eq!(flow.stage(), &RefreshStage::Finished);
}

#[test]
fn refresh_expired_token_is_deleted() {
    let (flow, _) = RefreshFlow::start(&config(), &request());
    let hash = AuthService::hash_token("presented-token");
    let (flow, action) = flow.step_at(RefreshEvent::TokenFound(Some(stored(&hash, NOW_US - 1))), at(NOW_US), &RANDOM);
    assert_eq!(action, RefreshAction::DeleteTokenByHash(hash));
    let (_, action) = flow.step(RefreshEvent::TokenDeleted);
    assert_eq!(action, RefreshAction::Reply(Err(ApiError::TokenExpired)));
}

#[test]
fn refresh_hash_mismatch_and_missing_user() {
    let (flow, _) = RefreshFlow::start(&config(), &request());
    let (_, action) = flow.step_at(RefreshEvent::TokenFound(Some(stored("not-the-hash", NOW_US + 1))), at(NOW_US), &RANDOM);
    assert_eq!(action, RefreshAction::Reply(Err(ApiError::InvalidToken)));
    let (flow, _) = RefreshFlow::start(&config(), &request());
    let hash = AuthService::hash_token("presented-token");
    let (flow, _) = flow.step_at(RefreshEvent::TokenFound(Some(stored(&hash, NOW_US))), at(NOW_US), &RANDOM);
    let (_, action) = flow.step(RefreshEvent::UserFound(None));
    assert_eq!(action, RefreshAction::Reply(Err(ApiError::UserNotFound)));
}

#[test]
fn refresh_event_out_of_order() {
    let (flow, _) = RefreshFlow::start(&config(), &request());
    let (_, action) = flow.step(RefreshEvent::TokenStored);
    assert!(matches!(action, RefreshAction::Reply(Err(ApiError::InternalError(_)))));
}

fn params(state: &str) -> GoogleCallbackParams {
    GoogleCallbackParams { code: "the-code".into(), state: state.into() }
}

fn profile(verified: bool) -> GoogleUserProfile {
    GoogleUserProfile {
        sub: "g-1".into(),
        email: "ana@example.com".into(),
        name: "Ana Lima".into(),
        given_name: "Ana".into(),
        family_name: "Lima".into(),
        picture: None,
        email_verified: verified,
    }
}

#[test]
fn google_callback_creates_user_and_session() {
    let cfg = config();
    let (flow, action) = GoogleCallbackFlow::start(&cfg, Some("csrf-1"), &params("csrf-1"));
    assert_eq!(action, CallbackAction::ExchangeCode("the-code".into()));
    let (flow, action) = flow.step(CallbackEvent::CodeExchanged(Ok("google-token".into())));
    assert_eq!(action, CallbackAction::FetchProfile("google-token".into()));
    let (flow, action) = flow.step(CallbackEvent::ProfileFetched(Ok(profile(true))));
    assert_eq!(action, CallbackAction::FindUserByEmail("ana@example.com".into()));
    let (flow, action) = flow.step(CallbackEvent::UserFound(None));
    assert_eq!(
        action,
        CallbackAction::CreateOAuthUser { email: "ana@example.com".into(), given_name: "Ana".into(), family_name: "Lima".into() }
    );
    let (flow, action) = flow.step(CallbackEvent::UserCreated(user()));
    let stored_hash = match action {
        CallbackAction::StoreRefreshToken { user_id, token_hash, .. } => {
            assert_eq!(user_id, 42);
            token_hash
        }
        other => panic!("unexpected {other:?}"),
    };
    let (flow, action) = flow.step(CallbackEvent::TokenStored);
    assert_eq!(flow.stage(), &CallbackStage::Finished);
    let reply = match action {
        CallbackAction::Reply(Ok(r)) => r,
        other => panic!("unexpected {other:?}"),
    };
    assert_eq!(reply.redirect_to, "http://localhost:5173/auth/callback");
    assert_eq!(reply.cookies.len(), 3);
    assert_eq!(reply.cookies[0], CookieChange::Remove("oauth_csrf".into()));
    match (&reply.cookies[1], &reply.cookies[2]) {
        (CookieChange::Add(r), CookieChange::Add(a)) => {
            assert_eq!(r.name, "refresh_token");
            assert_eq!(r.max_age_secs, 7 * 86_400);
            assert!(AuthService::verify_refresh_token_hash(&r.value, &stored_hash));
            assert_eq!(a.name, "access_token");
            assert_eq!(a.max_age_secs, 900);
            assert_eq!(a.same_site, SameSitePolicy::Strict);
        }
        other => panic!("unexpected {other:?}"),
    }
}

#[test]
fn google_callback_existing_user() {
    let (flow, _) = GoogleCallbackFlow::start(&config(), Some("s"), &params("s"));
    let (flow, _) = flow.step(CallbackEvent::CodeExchanged(Ok("t".into())));
    let (flow, _) = flow.step(CallbackEvent::ProfileFetched(Ok(profile(true))));
    let (_, action) = flow.step(CallbackEvent::UserFound(Some(user())));
    assert!(matches!(action, CallbackAction::StoreRefreshToken { user_id: 42, .. }));
}

#[test]
fn google_callback_refusals() {
    let (_, action) = GoogleCallbackFlow::start(&config(), None, &params("s"));
    assert_eq!(action, CallbackAction::Reply(Err(ApiError::InvalidToken)));
    let (_, action) = GoogleCallbackFlow::start(&config(), Some("a"), &params("b"));
    assert_eq!(action, CallbackAction::Reply(Err(ApiError::InvalidToken)));
    let (flow, _) = GoogleCallbackFlow::start(&config(), Some("s"), &params("s"));
    let (flow, _) = flow.step(CallbackEvent::CodeExchanged(Ok("t".into())));
    let (_, action) = flow.step(CallbackEvent::ProfileFetched(Ok(profile(false))));
    assert_eq!(action, CallbackAction::Reply(Err(ApiError::Unauthorized)));
}

#[test]
fn google_callback_failure_messages() {
    let (flow, _) = GoogleCallbackFlow::start(&config(), Some("s"), &params("s"));
    let (_, action) = flow.step(CallbackEvent::CodeExchanged(Err("bad code".into())));
    assert_eq!(action, CallbackAction::Reply(Err(ApiError::InternalError("Token exchange failed: bad code".into()))));
    let (flow, _) = GoogleCallbackFlow::start(&config(), Some("s"), &params("s"));
    let (flow, _) = flow.step(CallbackEvent::CodeExchanged(Ok("t".into())));
    let (_, action) = flow.step(CallbackEvent::ProfileFetched(Err(ProfileFailure::Parse("eof".into()))));
    assert_eq!(action, CallbackAction::Reply(Err(ApiError::InternalError("Failed to parse profile: eof".into()))));
    let (flow, _) = GoogleCallbackFlow::start(&config(), Some("s"), &params("s"));
    let (flow, _) = flow.step(CallbackEvent::CodeExchanged(Ok("t".into())));
    let (_, action) = flow.step(CallbackEvent::ProfileFetched(Err(ProfileFailure::Request("timeout".into()))));
    assert_eq!(action, CallbackAction::Reply(Err(ApiError::InternalError("Failed to fetch profile: timeout".into()))));
}

#[test]
fn callback_url_trims_slashes() {
    assert_eq!(frontend_callback_url("https://app.example.com//"), "https://app.example.com/auth/callback");
    assert_eq!(frontend_callback_url("https://app.example.com"), "https://app.example.com/auth/callback");
    assert_eq!(frontend_callback_url(""), "/auth/callback");
}

#[test]
fn oauth_client_and_authorize_url() {
    let client = build_oauth_client("cid".into(), "csecret".into(), "http://localhost:3000/auth/google/callback".into()).unwrap();
    assert_eq!(client.client_id(), "cid");
    assert_eq!(client.client_secret(), "csecret");
    assert_eq!(client.auth_url(), "https://accounts.google.com/o/oauth2/v2/auth");
    assert_eq!(client.token_url(), "https://oauth2.googleapis.com/token");
    assert_eq!(
        client.authorize_url("xyz"),
        "https://accounts.google.com/o/oauth2/v2/auth?response_type=code&client_id=cid&state=xyz&redirect_uri=http%3A%2F%2Flocalhost%3A3000%2Fauth%2Fgoogle%2Fcallback&scope=openid+email+profile"
    );
    let bad = build_oauth_client("cid".into(), "cs".into(), "not a url".into());
    assert!(matches!(bad, Err(ApiError::InvalidCredentials)));
}

#[test]
fn google_auth_sets_csrf_cookie() {
    let cfg = config();
    let client = build_oauth_client("cid".into(), "cs".into(), cfg.google_redirect_url.clone()).unwrap();
    let (url, cookie) = google_auth_redirect(&cfg, &client);
    assert_eq!(cookie.name, "oauth_csrf");
    assert_eq!(cookie.same_site, SameSitePolicy::Lax);
    assert_eq!(cookie.max_age_secs, 600);
    assert!(!cookie.value.is_empty());
    assert_eq!(url, client.authorize_url(&cookie.value));
}

#[test]
fn user_answers() {
    let r = UserResponse::from_user(user());
    assert_eq!(r.id, "00000000-0000-0000-0000-00000000002a");
    assert_eq!(r.email, "ana@example.com");
    assert_eq!(me_response(None), Err(ApiError::UserNotFound));
    assert_eq!(me_response(Some(user())).unwrap(), r);
}

fn config_with_refresh_days(days: i64) -> Config {
    Config { jwt_refresh_expiry: days, ..config() }
}

#[test]
fn google_callback_refusals_with_any_refresh_lifetime() {
    let cfg = config_with_refresh_days(i64::MAX);
    let (_, action) = GoogleCallbackFlow::start(&cfg, None, &params("s"));
    assert_eq!(action, CallbackAction::Reply(Err(ApiError::InvalidToken)));
    let (flow, _) = GoogleCallbackFlow::start(&cfg, Some("s"), &params("s"));
    let (flow, _) = flow.step(CallbackEvent::CodeExchanged(Ok("t".into())));
    let (_, action) = flow.step(CallbackEvent::ProfileFetched(Ok(profile(false))));
    assert_eq!(action, CallbackAction::Reply(Err(ApiError::Unauthorized)));
    let (flow, _) = GoogleCallbackFlow::start(&cfg, Some("s"), &params("s"));
    let (_, action) = flow.step(CallbackEvent::CodeExchanged(Err("bad code".into())));
    assert_eq!(action, CallbackAction::Reply(Err(ApiError::InternalError("Token exchange failed: bad code".into()))));
    let (flow, _) = GoogleCallbackFlow::start(&cfg, Some("s"), &params("s"));
    let (flow, _) = flow.step(CallbackEvent::CodeExchanged(Ok("t".into())));
    let (flow, _) = flow.step(CallbackEvent::ProfileFetched(Ok(profile(true))));
    let (_, action) = flow.step(CallbackEvent::UserFound(Some(user())));
    assert!(matches!(action, CallbackAction::Reply(Err(ApiError::InternalError(_)))));
}

#[test]
fn refresh_token_cannot_be_redeemed_twice() {
    let cfg = config();
    let presented = AuthService::hash_token("presented-token");
    let mut table: std::collections::HashSet<String> = std::collections::HashSet::new();
    table.insert(presented.clone());
    let (mut flow, mut action) = RefreshFlow::start(&cfg, &request());
    let reply = loop {
        let event = match action {
            RefreshAction::FindTokenByHash(h) => {
                RefreshEvent::TokenFound(table.get(&h).map(|h| stored(h, NOW_US + 1_000_000_000)))
            }
            RefreshAction::FindUserById(_) => RefreshEvent::UserFound(Some(user())),
            RefreshAction::DeleteTokenByHash(h) => {
                table.remove(&h);
                RefreshEvent::TokenDeleted
            }
            RefreshAction::StoreRefreshToken { token_hash, .. } => {
                table.insert(token_hash);
                RefreshEvent::TokenStored
            }
            RefreshAction::Reply(r) => break r,
        };
        (flow, action) = flow.step_at(event, at(NOW_US), &RANDOM);
    };
    assert!(reply.is_ok());
    assert!(!table.contains(&presented));
    assert_eq!(table.len(), 1);
    let (flow, action) = RefreshFlow::start(&cfg, &request());
    let found = match action {
        RefreshAction::FindTokenByHash(h) => table.get(&h).map(|h| stored(h, NOW_US + 1_000_000_000)),
        other => panic!("unexpected {other:?}"),
    };
    let (_, action) = flow.step_at(RefreshEvent::TokenFound(found), at(NOW_US), &RANDOM);
    assert_eq!(action, RefreshAction::Reply(Err(ApiError::InvalidToken)));
}

#[test]
fn refresh_issues_exact_tokens_at_a_given_instant() {
    let cfg = config();
    let service = AuthService::new(cfg.jwt_secret.clone(), 900, 7);
    let hash = AuthService::hash_token("presented-token");
    let (flow, _) = RefreshFlow::start(&cfg, &request());
    let (flow, _) = flow.step_at(RefreshEvent::TokenFound(Some(stored(&hash, NOW_US + 1))), at(NOW_US), &RANDOM);
    let (flow, _) = flow.step_at(RefreshEvent::UserFound(Some(user())), at(NOW_US), &RANDOM);
    let (flow, action) = flow.step_at(RefreshEvent::TokenDeleted, at(NOW_US), &RANDOM);
    let refresh = "ab".repeat(32);
    assert_eq!(
        action,
        RefreshAction::StoreRefreshToken {
            user_id: 42,
            token_hash: AuthService::hash_token(&refresh),
            expires_at: NOW_US + 7 * 86_400_000_000,
        }
    );
    let (_, action) = flow.step_at(RefreshEvent::TokenStored, at(NOW_US), &RANDOM);
    let reply = match action {
        RefreshAction::Reply(Ok(reply)) => reply,
        other => panic!("unexpected {other:?}"),
    };
    assert_eq!(reply.cookies[0].value, refresh);
    assert_eq!(reply.cookies[1].value, service.generate_access_token_at(42, "ana@example.com", NOW_US).unwrap());
}

#[test]
fn refresh_issue_fails_only_where_an_expiry_is_out_of_range() {
    let cfg = Config { jwt_access_expiry: i64::MAX, ..config() };
    let hash = AuthService::hash_token("presented-token");
    let (flow, _) = RefreshFlow::start(&cfg, &request());
    let (flow, _) = flow.step_at(RefreshEvent::TokenFound(Some(stored(&hash, NOW_US + 1))), at(NOW_US), &RANDOM);
    let (flow, _) = flow.step_at(RefreshEvent::UserFound(Some(user())), at(NOW_US), &RANDOM);
    let (_, action) = flow.step_at(RefreshEvent::TokenDeleted, at(NOW_US), &RANDOM);
    assert!(matches!(action, RefreshAction::Reply(Err(ApiError::InternalError(_)))));
}

#[test]
fn stored_expiry_is_compared_at_nanosecond_precision() {
    let hash = AuthService::hash_token("presented-token");
    let (flow, _) = RefreshFlow::start(&config(), &request());
    let (_, action) = flow.step_at(RefreshEvent::TokenFound(Some(stored(&hash, NOW_US))), at(NOW_US), &RANDOM);
    assert_eq!(action, RefreshAction::FindUserById(42));
    let (flow, _) = RefreshFlow::start(&config(), &request());
    let later = Instant { micros: NOW_US, nanos: 1 };
    let (_, action) = flow.step_at(RefreshEvent::TokenFound(Some(stored(&hash, NOW_US))), later, &RANDOM);
    assert_eq!(action, RefreshAction::DeleteTokenByHash(hash));
}

#[test]
fn google_callback_issues_exact_tokens_at_a_given_instant() {
    let cfg = config();
    let service = AuthService::new(cfg.jwt_secret.clone(), 900, 7);
    let (flow, _) = GoogleCallbackFlow::start(&cfg, Some("s"), &params("s"));
    let (flow, _) = flow.step_at(CallbackEvent::CodeExchanged(Ok("t".into())), at(NOW_US), &RANDOM);
    let (flow, _) = flow.step_at(CallbackEvent::ProfileFetched(Ok(profile(true))), at(NOW_US), &RANDOM);
    let (flow, action) = flow.step_at(CallbackEvent::UserFound(Some(user())), at(NOW_US), &RANDOM);
    let refresh = "ab".repeat(32);
    assert_eq!(
        action,
        CallbackAction::StoreRefreshToken {
            user_id: 42,
            token_hash: AuthService::hash_token(&refresh),
            expires_at: NOW_US + 7 * 86_400_000_000,
        }
    );
    let (_, action) = flow.step_at(CallbackEvent::TokenStored, at(NOW_US), &RANDOM);
    let reply = match action {
        CallbackAction::Reply(Ok(reply)) => reply,
        other => panic!("unexpected {other:?}"),
    };
    let access = service.generate_access_token_at(42, "ana@example.com", NOW_US).unwrap();
    match &reply.cookies[1] {
        CookieChange::Add(c) => assert_eq!(c.value, refresh),
        other => panic!("unexpected {other:?}"),
    }
    match &reply.cookies[2] {
        CookieChange::Add(c) => assert_eq!(c.value, access),
        other => panic!("unexpected {other:?}"),
    }
}
