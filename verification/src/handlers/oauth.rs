//! Google sign-in: sending the user to Google, and the redirect back.
//!
//! The redirect back is a conversation with Google and the database;
//! [`GoogleCallbackFlow`] decides each next step from the answers.
use vstd::prelude::*;
use crate::config::Config;
use crate::cookies::{
    is_cookie, site_cookie, CookieChange, CookieSpec, SameSitePolicy, CSRF_COOKIE_MAX_AGE_SECS,
};
use crate::error::ApiError;
use crate::models::oauth::{GoogleCallbackParams, GoogleUserProfile};
use crate::models::user::User;
use crate::clock::{clock_instant, now, Instant};
use crate::services::auth::{random_token_bytes, session_tokens, AuthService};
use crate::services::oauth::{authorize_url_text, google_scopes, GoogleOAuthClient};
use crate::text::{str_eq, trim_end_char, trim_end_matches};

verus! {

/// Where the frontend receives the user after sign-in.
pub open spec fn callback_redirect(frontend_url: Seq<char>) -> Seq<char> {
    trim_end_char(frontend_url, '/') + "/auth/callback"@
}

/// The frontend URL without trailing slashes, followed by `/auth/callback`.
pub fn frontend_callback_url(frontend_url: &str) -> (r: String)
    ensures
        r@ == callback_redirect(frontend_url@),
{
    trim_end_matches(frontend_url, '/').concat("/auth/callback")
}

/// Beginning of sign-in: the URL that sends the user to Google with a fresh
/// CSRF token as state, and the lax `oauth_csrf` cookie (10 minutes) holding
/// that token.
pub fn google_auth_redirect(config: &Config, client: &GoogleOAuthClient) -> (r: (String, CookieSpec))
    ensures
        r.0@ == authorize_url_text(client.spec_auth_url(), client.spec_client_id(), client.spec_redirect_url(), r.1.value@, google_scopes()),
        is_cookie(r.1, "oauth_csrf"@, r.1.value@, config.cookie_secure, SameSitePolicy::Lax, CSRF_COOKIE_MAX_AGE_SECS as int),
{
    let (url, csrf) = client.authorize_url_with_new_csrf();
    let cookie = site_cookie("oauth_csrf", csrf, config.cookie_secure, SameSitePolicy::Lax, CSRF_COOKIE_MAX_AGE_SECS);
    (url, cookie)
}

/// The successful end of sign-in: cookie changes and where to send the user.
#[derive(Debug, Clone, PartialEq, Eq)]
pub struct CallbackReply {
    pub cookies: Vec<CookieChange>,
    pub redirect_to: String,
}

/// Why the profile could not be had.
#[derive(Debug, Clone, PartialEq, Eq)]
pub enum ProfileFailure {
    /// The request to Google failed; the error's text.
    Request(String),
    /// The answer did not read as a profile; the error's text.
    Parse(String),
}

/// Where sign-in stands.
#[derive(Debug, Clone, PartialEq, Eq)]
pub enum CallbackStage {
    AwaitingExchange,
    AwaitingProfile,
    AwaitingUser(GoogleUserProfile),
    AwaitingCreation,
    /// The new refresh token is being stored; the issued access and refresh
    /// tokens wait to be handed over.
    AwaitingStore { access: String, refresh: String },
    Finished,
}

/// What Google or the database answered.
#[derive(Debug, PartialEq, Eq)]
pub enum CallbackEvent {
    /// The code was exchanged: the access token's secret, or the error's text.
    CodeExchanged(Result<String, String>),
    ProfileFetched(Result<GoogleUserProfile, ProfileFailure>),
    UserFound(Option<User>),
    UserCreated(User),
    TokenStored,
}

/// What the server does next.
#[derive(Debug, PartialEq, Eq)]
pub enum CallbackAction {
    /// Exchange the authorization code for a token.
    ExchangeCode(String),
    /// Fetch the profile with this bearer token.
    FetchProfile(String),
    FindUserByEmail(String),
    CreateOAuthUser { email: String, given_name: String, family_name: String },
    StoreRefreshToken { user_id: u128, token_hash: String, expires_at: i64 },
    Reply(Result<CallbackReply, ApiError>),
}

/// Sign-in in progress.
#[derive(Debug)]
pub struct GoogleCallbackFlow {
    service: AuthService,
    cookie_secure: bool,
    access_expiry: i64,
    refresh_days: i64,
    frontend_url: String,
    stage: CallbackStage,
}

/// The refresh cookie's lifetime in seconds fits in `i64` (`time::Duration::days`
/// panics otherwise).
pub open spec fn refresh_cookie_age_fits(days: int) -> bool {
    i64::MIN <= days * 86400 <= i64::MAX
}

impl GoogleCallbackFlow {
    pub closed spec fn spec_service(&self) -> AuthService {
        self.service
    }

    pub closed spec fn spec_cookie_secure(&self) -> bool {
        self.cookie_secure
    }

    pub closed spec fn spec_access_expiry(&self) -> i64 {
        self.access_expiry
    }

    pub closed spec fn spec_refresh_days(&self) -> i64 {
        self.refresh_days
    }

    pub closed spec fn spec_frontend_url(&self) -> Seq<char> {
        self.frontend_url@
    }

    pub closed spec fn spec_stage(&self) -> CallbackStage {
        self.stage
    }

    pub fn stage(&self) -> (r: &CallbackStage)
        ensures
            *r == self.spec_stage(),
    {
        &self.stage
    }
}

/// The text of a cookie change that sets a cookie.
pub open spec fn added_value(c: CookieChange) -> Seq<char> {
    match c {
        CookieChange::Add(s) => s.value@,
        CookieChange::Remove(_) => Seq::empty(),
    }
}

/// `reply` removes `oauth_csrf`, sets the refresh cookie (lifetime in days
/// from the settings) and the access cookie (lifetime in seconds from the
/// settings), both strict, and sends the user to the frontend's callback.
pub open spec fn is_callback_reply(
    reply: CallbackReply,
    secure: bool,
    refresh_days: i64,
    access_secs: i64,
    frontend_url: Seq<char>,
) -> bool {
    &&& reply.cookies@.len() == 3
    &&& reply.cookies@[0] matches CookieChange::Remove(n) && n@ == "oauth_csrf"@
    &&& reply.cookies@[1] matches CookieChange::Add(c) && is_cookie(c, "refresh_token"@, c.value@, secure, SameSitePolicy::Strict, refresh_days * 86400)
    &&& reply.cookies@[2] matches CookieChange::Add(c) && is_cookie(c, "access_token"@, c.value@, secure, SameSitePolicy::Strict, access_secs as int)
    &&& reply.redirect_to@ == callback_redirect(frontend_url)
}

/// Steps keep the settings.
pub open spec fn keeps_settings(old: GoogleCallbackFlow, new: GoogleCallbackFlow) -> bool {
    &&& new.spec_service() == old.spec_service()
    &&& new.spec_cookie_secure() == old.spec_cookie_secure()
    &&& new.spec_access_expiry() == old.spec_access_expiry()
    &&& new.spec_refresh_days() == old.spec_refresh_days()
    &&& new.spec_frontend_url() == old.spec_frontend_url()
}

/// Sign-in ends with error `e`.
pub open spec fn signin_fails(new: GoogleCallbackFlow, a: CallbackAction, e: ApiError) -> bool {
    new.spec_stage() is Finished && a == CallbackAction::Reply(Err(e))
}

/// Sign-in ends with an internal error whose text is `prefix` then `detail`.
pub open spec fn signin_fails_internally(new: GoogleCallbackFlow, a: CallbackAction, prefix: Seq<char>, detail: Seq<char>) -> bool {
    &&& new.spec_stage() is Finished
    &&& a matches CallbackAction::Reply(Err(ApiError::InternalError(m))) && m@ == prefix + detail
}

/// Tokens are issued to user `u` at `now`, the refresh token made of
/// `random`, and the new refresh token is stored; or, where an expiry is out
/// of range, sign-in ends with an internal error.
pub open spec fn callback_issue_step(old: GoogleCallbackFlow, new: GoogleCallbackFlow, u: User, now: Instant, random: Seq<u8>, a: CallbackAction) -> bool {
    match session_tokens(old.spec_service(), u.id, u.email@, random, now.micros as int) {
        Some(x) => {
            &&& new.spec_stage() matches CallbackStage::AwaitingStore { access, refresh } && access@ == x.0 && refresh@ == x.1
            &&& a matches CallbackAction::StoreRefreshToken { user_id, token_hash, expires_at }
                && user_id == u.id && token_hash@ == x.2 && expires_at == x.3
        },
        None => new.spec_stage() is Finished && a matches CallbackAction::Reply(Err(ApiError::InternalError(_))),
    }
}

/// The reply after the refresh token was stored: it hands over the issued
/// tokens in the refresh and access cookies.
pub open spec fn callback_reply_step(old: GoogleCallbackFlow, new: GoogleCallbackFlow, access: Seq<char>, refresh: Seq<char>, a: CallbackAction) -> bool {
    &&& new.spec_stage() is Finished
    &&& a matches CallbackAction::Reply(Ok(reply))
    &&& is_callback_reply(reply, old.spec_cookie_secure(), old.spec_refresh_days(), old.spec_access_expiry(), old.spec_frontend_url())
    &&& added_value(reply.cookies@[1]) == refresh
    &&& added_value(reply.cookies@[2]) == access
}

/// One step of sign-in at `now`, given what Google or the database answered;
/// new tokens are made with the random bytes `random`.
pub open spec fn callback_transition(old: GoogleCallbackFlow, new: GoogleCallbackFlow, event: CallbackEvent, now: Instant, random: Seq<u8>, a: CallbackAction) -> bool {
    &&& keeps_settings(old, new)
    &&& match (old.spec_stage(), event) {
        (CallbackStage::AwaitingExchange, CallbackEvent::CodeExchanged(Err(d))) => signin_fails_internally(new, a, "Token exchange failed: "@, d@),
        (CallbackStage::AwaitingExchange, CallbackEvent::CodeExchanged(Ok(t))) => {
            &&& new.spec_stage() is AwaitingProfile
            &&& a matches CallbackAction::FetchProfile(b) && b@ == t@
        },
        (CallbackStage::AwaitingProfile, CallbackEvent::ProfileFetched(Err(ProfileFailure::Request(d)))) => signin_fails_internally(new, a, "Failed to fetch profile: "@, d@),
        (CallbackStage::AwaitingProfile, CallbackEvent::ProfileFetched(Err(ProfileFailure::Parse(d)))) => signin_fails_internally(new, a, "Failed to parse profile: "@, d@),
        (CallbackStage::AwaitingProfile, CallbackEvent::ProfileFetched(Ok(p))) => if !p.email_verified {
            signin_fails(new, a, ApiError::Unauthorized)
        } else {
            &&& new.spec_stage() == CallbackStage::AwaitingUser(p)
            &&& a matches CallbackAction::FindUserByEmail(e) && e@ == p.email@
        },
        (CallbackStage::AwaitingUser(p), CallbackEvent::UserFound(Some(u))) => callback_issue_step(old, new, u, now, random, a),
        (CallbackStage::AwaitingUser(p), CallbackEvent::UserFound(None)) => {
            &&& new.spec_stage() is AwaitingCreation
            &&& a matches CallbackAction::CreateOAuthUser { email, given_name, family_name } && email@ == p.email@
                && given_name@ == p.given_name@ && family_name@ == p.family_name@
        },
        (CallbackStage::AwaitingCreation, CallbackEvent::UserCreated(u)) => callback_issue_step(old, new, u, now, random, a),
        (CallbackStage::AwaitingStore { access, refresh }, CallbackEvent::TokenStored) => callback_reply_step(old, new, access@, refresh@, a),
        _ => new.spec_stage() is Finished && a matches CallbackAction::Reply(Err(ApiError::InternalError(_))),
    }
}

/// The reply that hands the issued tokens over: `oauth_csrf` removed, the
/// refresh and access cookies set, and the frontend's callback to go to.
fn callback_reply(cookie_secure: bool, access_expiry: i64, refresh_days: i64, frontend_url: &str, access: String, refresh: String) -> (r: CallbackReply)
    requires
        refresh_cookie_age_fits(refresh_days as int),
    ensures
        is_callback_reply(r, cookie_secure, refresh_days, access_expiry, frontend_url@),
        added_value(r.cookies@[1]) == refresh@,
        added_value(r.cookies@[2]) == access@,
{
    let refresh_cookie = site_cookie("refresh_token", refresh, cookie_secure, SameSitePolicy::Strict, refresh_days * 86400);
    let access_cookie = site_cookie("access_token", access, cookie_secure, SameSitePolicy::Strict, access_expiry);
    let mut cookies: Vec<CookieChange> = Vec::new();
    cookies.push(CookieChange::Remove("oauth_csrf".to_owned()));
    cookies.push(CookieChange::Add(refresh_cookie));
    cookies.push(CookieChange::Add(access_cookie));
    CallbackReply { cookies, redirect_to: frontend_callback_url(frontend_url) }
}

impl GoogleCallbackFlow {
    /// Begins handling the redirect back from Google: the `state` parameter
    /// must equal the `oauth_csrf` cookie, else the sign-in is refused with
    /// `InvalidToken`; then the code is exchanged.
    pub fn start(config: &Config, stored_csrf: Option<&str>, params: &GoogleCallbackParams) -> (r: (GoogleCallbackFlow, CallbackAction))
        ensures
            r.0.spec_service().secret() == config.jwt_secret@,
            r.0.spec_service().access_expiry() == config.jwt_access_expiry,
            r.0.spec_service().refresh_expiry() == config.jwt_refresh_expiry,
            r.0.spec_cookie_secure() == config.cookie_secure,
            r.0.spec_access_expiry() == config.jwt_access_expiry,
            r.0.spec_refresh_days() == config.jwt_refresh_expiry,
            r.0.spec_frontend_url() == config.frontend_url@,
            match stored_csrf {
                Some(s) if s@ == params.state@ => {
                    &&& r.0.spec_stage() is AwaitingExchange
                    &&& r.1 matches CallbackAction::ExchangeCode(c) && c@ == params.code@
                },
                _ => r.0.spec_stage() is Finished && r.1 == CallbackAction::Reply(Err(ApiError::InvalidToken)),
            },
    {
        let service = AuthService::new(config.jwt_secret.clone(), config.jwt_access_expiry, config.jwt_refresh_expiry);
        let matches_state = match stored_csrf {
            Some(s) => str_eq(s, params.state.as_str()),
            None => false,
        };
        let (stage, action) = if matches_state {
            (CallbackStage::AwaitingExchange, CallbackAction::ExchangeCode(params.code.clone()))
        } else {
            (CallbackStage::Finished, CallbackAction::Reply(Err(ApiError::InvalidToken)))
        };
        let flow = GoogleCallbackFlow {
            service,
            cookie_secure: config.cookie_secure,
            access_expiry: config.jwt_access_expiry,
            refresh_days: config.jwt_refresh_expiry,
            frontend_url: config.frontend_url.clone(),
            stage,
        };
        (flow, action)
    }

    /// The next step of sign-in, with the system clock as the present and
    /// new tokens made of 32 bytes from the system's random generator.
    /// Handing the tokens over sets the refresh cookie's lifetime in seconds,
    /// which must fit in `i64`.
    pub fn step(self, event: CallbackEvent) -> (r: (GoogleCallbackFlow, CallbackAction))
        requires
            self.spec_stage() is AwaitingStore && event is TokenStored ==> refresh_cookie_age_fits(self.spec_refresh_days() as int),
        ensures
            exists|now: Instant, random: Seq<u8>| clock_instant(now.micros as int) && now.nanos < 1000 && random.len() == 32
                && #[trigger] callback_transition(self, r.0, event, now, random, r.1),
    {
        let present = now();
        let random = random_token_bytes();
        self.step_at(event, present, random.as_slice())
    }

    /// The next step of sign-in, taking `now` as the present and making new
    /// tokens with the random bytes `random`.
    pub fn step_at(self, event: CallbackEvent, now: Instant, random: &[u8]) -> (r: (GoogleCallbackFlow, CallbackAction))
        requires
            self.spec_stage() is AwaitingStore && event is TokenStored ==> refresh_cookie_age_fits(self.spec_refresh_days() as int),
        ensures
            callback_transition(self, r.0, event, now, random@, r.1),
    {
        let GoogleCallbackFlow { service, cookie_secure, access_expiry, refresh_days, frontend_url, stage } = self;
        let (next, action) = match (stage, event) {
            (CallbackStage::AwaitingExchange, CallbackEvent::CodeExchanged(Err(d))) => {
                (CallbackStage::Finished, CallbackAction::Reply(Err(ApiError::InternalError("Token exchange failed: ".to_owned().concat(d.as_str())))))
            },
            (CallbackStage::AwaitingExchange, CallbackEvent::CodeExchanged(Ok(t))) => {
                (CallbackStage::AwaitingProfile, CallbackAction::FetchProfile(t))
            },
            (CallbackStage::AwaitingProfile, CallbackEvent::ProfileFetched(Err(ProfileFailure::Request(d)))) => {
                (CallbackStage::Finished, CallbackAction::Reply(Err(ApiError::InternalError("Failed to fetch profile: ".to_owned().concat(d.as_str())))))
            },
            (CallbackStage::AwaitingProfile, CallbackEvent::ProfileFetched(Err(ProfileFailure::Parse(d)))) => {
                (CallbackStage::Finished, CallbackAction::Reply(Err(ApiError::InternalError("Failed to parse profile: ".to_owned().concat(d.as_str())))))
            },
            (CallbackStage::AwaitingProfile, CallbackEvent::ProfileFetched(Ok(p))) => {
                if !p.email_verified {
                    (CallbackStage::Finished, CallbackAction::Reply(Err(ApiError::Unauthorized)))
                } else {
                    let email = p.email.clone();
                    (CallbackStage::AwaitingUser(p), CallbackAction::FindUserByEmail(email))
                }
            },
            (CallbackStage::AwaitingUser(p), CallbackEvent::UserFound(None)) => {
                (CallbackStage::AwaitingCreation, CallbackAction::CreateOAuthUser { email: p.email, given_name: p.given_name, family_name: p.family_name })
            },
            (CallbackStage::AwaitingUser(_), CallbackEvent::UserFound(Some(u))) | (CallbackStage::AwaitingCreation, CallbackEvent::UserCreated(u)) => {
                match service.issue_session_at(u.id, u.email.as_str(), random, now.micros) {
                    Ok((access, refresh, token_hash, expires_at)) => {
                        (CallbackStage::AwaitingStore { access, refresh }, CallbackAction::StoreRefreshToken { user_id: u.id, token_hash, expires_at })
                    },
                    Err(e) => (CallbackStage::Finished, CallbackAction::Reply(Err(e))),
                }
            },
            (CallbackStage::AwaitingStore { access, refresh }, CallbackEvent::TokenStored) => {
                let reply = callback_reply(cookie_secure, access_expiry, refresh_days, frontend_url.as_str(), access, refresh);
                (CallbackStage::Finished, CallbackAction::Reply(Ok(reply)))
            },
            (_, _) => {
                (CallbackStage::Finished, CallbackAction::Reply(Err(ApiError::InternalError("sign-in step out of order".to_owned()))))
            },
        };
        let flow = GoogleCallbackFlow { service, cookie_secure, access_expiry, refresh_days, frontend_url, stage: next };
        (flow, action)
    }
}

} // verus!
