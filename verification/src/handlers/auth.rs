//! Session endpoints: refreshing a session and describing the signed-in user.
//!
//! A refresh is a conversation with the database; [`RefreshFlow`] decides each
//! next step from what the database answered, and the server performs it.
use vstd::prelude::*;
use crate::clock::{clock_instant, now, Instant};
use crate::config::Config;
use crate::cookies::{
    is_cookie, site_cookie, CookieSpec, SameSitePolicy, ACCESS_COOKIE_MAX_AGE_SECS, REFRESH_COOKIE_MAX_AGE_SECS,
};
use crate::error::ApiError;
use crate::ids::{uuid_string, uuid_text};
use crate::models::token::RefreshToken;
use crate::models::user::User;
use crate::services::auth::{random_token_bytes, session_tokens, token_hash_text, AuthService};

verus! {

/// Body of a refresh request.
#[derive(Debug, Clone, PartialEq, Eq)]
pub struct RefreshRequest {
    pub refresh_token: String,
}

/// Body of the answer to a refresh.
#[derive(Debug, Clone, PartialEq, Eq)]
pub struct AuthResponse {
    pub token_type: String,
    pub expires_in: i64,
}

/// The signed-in user as sent to the client.
#[derive(Debug, Clone, PartialEq, Eq)]
pub struct UserResponse {
    pub id: String,
    pub email: String,
}

impl UserResponse {
    /// This answer shows user `u`: id in UUID text, and email.
    pub open spec fn shows(&self, u: User) -> bool {
        self.id@ == uuid_text(u.id) && self.email@ == u.email@
    }

    pub fn from_user(user: User) -> (r: UserResponse)
        ensures
            r.shows(user),
    {
        UserResponse { id: uuid_string(user.id), email: user.email }
    }
}

/// The answer of `GET /auth/me` given the user read for the token's user id.
pub fn me_response(found: Option<User>) -> (r: Result<UserResponse, ApiError>)
    ensures
        match found {
            Some(u) => r matches Ok(x) && x.shows(u),
            None => r == Err::<UserResponse, ApiError>(ApiError::UserNotFound),
        },
{
    match found {
        Some(u) => Ok(UserResponse::from_user(u)),
        None => Err(ApiError::UserNotFound),
    }
}

/// The successful answer to a refresh: cookies to set and the body.
#[derive(Debug, Clone, PartialEq, Eq)]
pub struct SessionReply {
    pub cookies: Vec<CookieSpec>,
    pub body: AuthResponse,
}

/// `reply` sets the refresh cookie (7 days) then the access cookie (15
/// minutes), both strict, and says `Bearer` with the access lifetime.
pub open spec fn is_refresh_reply(reply: SessionReply, access: Seq<char>, refresh: Seq<char>, secure: bool, expires_in: i64) -> bool {
    &&& reply.cookies@.len() == 2
    &&& is_cookie(reply.cookies@[0], "refresh_token"@, refresh, secure, SameSitePolicy::Strict, REFRESH_COOKIE_MAX_AGE_SECS as int)
    &&& is_cookie(reply.cookies@[1], "access_token"@, access, secure, SameSitePolicy::Strict, ACCESS_COOKIE_MAX_AGE_SECS as int)
    &&& reply.body.token_type@ == "Bearer"@
    &&& reply.body.expires_in == expires_in
}

/// Where a refresh stands.
#[derive(Debug, Clone, PartialEq, Eq)]
pub enum RefreshStage {
    /// The stored token with the presented token's hash is being read.
    AwaitingToken,
    /// The expired stored token is being deleted.
    AwaitingExpiredDeletion,
    /// The token's user is being read.
    AwaitingUser,
    /// The presented token is being revoked before new ones are issued.
    AwaitingRevocation(User),
    /// The new refresh token is being stored; the reply is ready.
    AwaitingStore(SessionReply),
    Finished,
}

/// What the database answered.
#[derive(Debug, Clone, PartialEq, Eq)]
pub enum RefreshEvent {
    TokenFound(Option<RefreshToken>),
    TokenDeleted,
    UserFound(Option<User>),
    TokenStored,
}

/// What the server does next.
#[derive(Debug, PartialEq, Eq)]
pub enum RefreshAction {
    FindTokenByHash(String),
    DeleteTokenByHash(String),
    FindUserById(u128),
    StoreRefreshToken { user_id: u128, token_hash: String, expires_at: i64 },
    Reply(Result<SessionReply, ApiError>),
}

/// A refresh in progress.
#[derive(Debug)]
pub struct RefreshFlow {
    service: AuthService,
    cookie_secure: bool,
    access_expiry: i64,
    presented: String,
    token_hash: String,
    stage: RefreshStage,
}

impl RefreshFlow {
    pub closed spec fn spec_service(&self) -> AuthService {
        self.service
    }

    pub closed spec fn spec_cookie_secure(&self) -> bool {
        self.cookie_secure
    }

    pub closed spec fn spec_access_expiry(&self) -> i64 {
        self.access_expiry
    }

    /// The refresh token the client presented.
    pub closed spec fn spec_presented(&self) -> Seq<char> {
        self.presented@
    }

    /// Its stored form.
    pub closed spec fn spec_token_hash(&self) -> Seq<char> {
        self.token_hash@
    }

    pub closed spec fn spec_stage(&self) -> RefreshStage {
        self.stage
    }

    pub fn stage(&self) -> (r: &RefreshStage)
        ensures
            *r == self.spec_stage(),
    {
        &self.stage
    }
}

/// Steps keep the settings and the presented token.
pub open spec fn keeps_request(old: RefreshFlow, new: RefreshFlow) -> bool {
    &&& new.spec_service() == old.spec_service()
    &&& new.spec_cookie_secure() == old.spec_cookie_secure()
    &&& new.spec_access_expiry() == old.spec_access_expiry()
    &&& new.spec_presented() == old.spec_presented()
    &&& new.spec_token_hash() == old.spec_token_hash()
}

/// The refresh ends with error `e`.
pub open spec fn ends_with_error(new: RefreshFlow, a: RefreshAction, e: ApiError) -> bool {
    new.spec_stage() is Finished && a == RefreshAction::Reply(Err(e))
}

/// The step after the presented token was revoked for user `u`, at `now`
/// with the random bytes `random`: the session's tokens are issued, the reply
/// that hands them over is kept and the new refresh token is stored; or, where
/// an expiry is out of range, the refresh ends with an internal error.
pub open spec fn issue_step(old: RefreshFlow, new: RefreshFlow, u: User, now: Instant, random: Seq<u8>, a: RefreshAction) -> bool {
    match session_tokens(old.spec_service(), u.id, u.email@, random, now.micros as int) {
        Some(x) => {
            &&& new.spec_stage() matches RefreshStage::AwaitingStore(reply)
                && is_refresh_reply(reply, x.0, x.1, old.spec_cookie_secure(), old.spec_access_expiry())
            &&& a matches RefreshAction::StoreRefreshToken { user_id, token_hash, expires_at }
                && user_id == u.id && token_hash@ == x.2 && expires_at == x.3
        },
        None => new.spec_stage() is Finished && a matches RefreshAction::Reply(Err(ApiError::InternalError(_))),
    }
}

/// One step of a refresh at instant `now`, given what the database answered;
/// new tokens are made with the random bytes `random`.
pub open spec fn refresh_transition(old: RefreshFlow, new: RefreshFlow, event: RefreshEvent, now: Instant, random: Seq<u8>, a: RefreshAction) -> bool {
    &&& keeps_request(old, new)
    &&& match (old.spec_stage(), event) {
        (RefreshStage::AwaitingToken, RefreshEvent::TokenFound(None)) => ends_with_error(new, a, ApiError::InvalidToken),
        (RefreshStage::AwaitingToken, RefreshEvent::TokenFound(Some(t))) => if t.spec_expired_at(now) {
            &&& new.spec_stage() is AwaitingExpiredDeletion
            &&& a matches RefreshAction::DeleteTokenByHash(h) && h@ == old.spec_token_hash()
        } else if token_hash_text(old.spec_presented()) != t.token_hash@ {
            ends_with_error(new, a, ApiError::InvalidToken)
        } else {
            new.spec_stage() is AwaitingUser && a == RefreshAction::FindUserById(t.user_id)
        },
        (RefreshStage::AwaitingExpiredDeletion, RefreshEvent::TokenDeleted) => ends_with_error(new, a, ApiError::TokenExpired),
        (RefreshStage::AwaitingUser, RefreshEvent::UserFound(None)) => ends_with_error(new, a, ApiError::UserNotFound),
        (RefreshStage::AwaitingUser, RefreshEvent::UserFound(Some(u))) => {
            &&& new.spec_stage() == RefreshStage::AwaitingRevocation(u)
            &&& a matches RefreshAction::DeleteTokenByHash(h) && h@ == old.spec_token_hash()
        },
        (RefreshStage::AwaitingRevocation(u), RefreshEvent::TokenDeleted) => issue_step(old, new, u, now, random, a),
        (RefreshStage::AwaitingStore(reply), RefreshEvent::TokenStored) => new.spec_stage() is Finished && a
            == RefreshAction::Reply(Ok(reply)),
        _ => new.spec_stage() is Finished && a matches RefreshAction::Reply(Err(ApiError::InternalError(_))),
    }
}

impl RefreshFlow {
    /// Begins a refresh: look up the stored token by the presented token's hash.
    pub fn start(config: &Config, request: &RefreshRequest) -> (r: (RefreshFlow, RefreshAction))
        ensures
            r.0.spec_service().secret() == config.jwt_secret@,
            r.0.spec_service().access_expiry() == config.jwt_access_expiry,
            r.0.spec_service().refresh_expiry() == config.jwt_refresh_expiry,
            r.0.spec_cookie_secure() == config.cookie_secure,
            r.0.spec_access_expiry() == config.jwt_access_expiry,
            r.0.spec_presented() == request.refresh_token@,
            r.0.spec_token_hash() == token_hash_text(request.refresh_token@),
            r.0.spec_stage() is AwaitingToken,
            r.1 matches RefreshAction::FindTokenByHash(h) && h@ == token_hash_text(request.refresh_token@),
    {
        let service = AuthService::new(config.jwt_secret.clone(), config.jwt_access_expiry, config.jwt_refresh_expiry);
        let token_hash = AuthService::hash_token(request.refresh_token.as_str());
        let action = RefreshAction::FindTokenByHash(token_hash.clone());
        let flow = RefreshFlow {
            service,
            cookie_secure: config.cookie_secure,
            access_expiry: config.jwt_access_expiry,
            presented: request.refresh_token.clone(),
            token_hash,
            stage: RefreshStage::AwaitingToken,
        };
        (flow, action)
    }

    /// The next step, taking `now` as the present and making new tokens with
    /// the random bytes `random`.
    pub fn step_at(self, event: RefreshEvent, now: Instant, random: &[u8]) -> (r: (RefreshFlow, RefreshAction))
        ensures
            refresh_transition(self, r.0, event, now, random@, r.1),
    {
        let RefreshFlow { service, cookie_secure, access_expiry, presented, token_hash, stage } = self;
        match (stage, event) {
            (RefreshStage::AwaitingToken, RefreshEvent::TokenFound(None)) => {
                let flow = RefreshFlow { service, cookie_secure, access_expiry, presented, token_hash, stage: RefreshStage::Finished };
                (flow, RefreshAction::Reply(Err(ApiError::InvalidToken)))
            },
            (RefreshStage::AwaitingToken, RefreshEvent::TokenFound(Some(t))) => {
                if t.is_expired_at(now) {
                    let action = RefreshAction::DeleteTokenByHash(token_hash.clone());
                    let flow = RefreshFlow { service, cookie_secure, access_expiry, presented, token_hash, stage: RefreshStage::AwaitingExpiredDeletion };
                    (flow, action)
                } else if !AuthService::verify_refresh_token_hash(presented.as_str(), t.token_hash.as_str()) {
                    let flow = RefreshFlow { service, cookie_secure, access_expiry, presented, token_hash, stage: RefreshStage::Finished };
                    (flow, RefreshAction::Reply(Err(ApiError::InvalidToken)))
                } else {
                    let flow = RefreshFlow { service, cookie_secure, access_expiry, presented, token_hash, stage: RefreshStage::AwaitingUser };
                    (flow, RefreshAction::FindUserById(t.user_id))
                }
            },
            (RefreshStage::AwaitingExpiredDeletion, RefreshEvent::TokenDeleted) => {
                let flow = RefreshFlow { service, cookie_secure, access_expiry, presented, token_hash, stage: RefreshStage::Finished };
                (flow, RefreshAction::Reply(Err(ApiError::TokenExpired)))
            },
            (RefreshStage::AwaitingUser, RefreshEvent::UserFound(None)) => {
                let flow = RefreshFlow { service, cookie_secure, access_expiry, presented, token_hash, stage: RefreshStage::Finished };
                (flow, RefreshAction::Reply(Err(ApiError::UserNotFound)))
            },
            (RefreshStage::AwaitingUser, RefreshEvent::UserFound(Some(u))) => {
                let action = RefreshAction::DeleteTokenByHash(token_hash.clone());
                let flow = RefreshFlow { service, cookie_secure, access_expiry, presented, token_hash, stage: RefreshStage::AwaitingRevocation(u) };
                (flow, action)
            },
            (RefreshStage::AwaitingRevocation(u), RefreshEvent::TokenDeleted) => {
                match service.issue_session_at(u.id, u.email.as_str(), random, now.micros) {
                    Ok((access, refresh, refresh_hash, expires_at)) => {
                        let refresh_cookie = site_cookie("refresh_token", refresh, cookie_secure, SameSitePolicy::Strict, REFRESH_COOKIE_MAX_AGE_SECS);
                        let access_cookie = site_cookie("access_token", access, cookie_secure, SameSitePolicy::Strict, ACCESS_COOKIE_MAX_AGE_SECS);
                        let mut cookies: Vec<CookieSpec> = Vec::new();
                        cookies.push(refresh_cookie);
                        cookies.push(access_cookie);
                        let reply = SessionReply { cookies, body: AuthResponse { token_type: "Bearer".to_owned(), expires_in: access_expiry } };
                        let action = RefreshAction::StoreRefreshToken { user_id: u.id, token_hash: refresh_hash, expires_at };
                        let flow = RefreshFlow { service, cookie_secure, access_expiry, presented, token_hash, stage: RefreshStage::AwaitingStore(reply) };
                        (flow, action)
                    },
                    Err(e) => {
                        let flow = RefreshFlow { service, cookie_secure, access_expiry, presented, token_hash, stage: RefreshStage::Finished };
                        (flow, RefreshAction::Reply(Err(e)))
                    },
                }
            },
            (RefreshStage::AwaitingStore(reply), RefreshEvent::TokenStored) => {
                let flow = RefreshFlow { service, cookie_secure, access_expiry, presented, token_hash, stage: RefreshStage::Finished };
                (flow, RefreshAction::Reply(Ok(reply)))
            },
            (_, _) => {
                let flow = RefreshFlow { service, cookie_secure, access_expiry, presented, token_hash, stage: RefreshStage::Finished };
                (flow, RefreshAction::Reply(Err(ApiError::InternalError("refresh step out of order".to_owned()))))
            },
        }
    }

    /// The next step, with the system clock as the present and new tokens
    /// made of 32 bytes from the system's random generator.
    pub fn step(self, event: RefreshEvent) -> (r: (RefreshFlow, RefreshAction))
        ensures
            exists|now: Instant, random: Seq<u8>| clock_instant(now.micros as int) && now.nanos < 1000 && random.len() == 32
                && #[trigger] refresh_transition(self, r.0, event, now, random, r.1),
    {
        let present = now();
        let random = random_token_bytes();
        self.step_at(event, present, random.as_slice())
    }
}

} // verus!
