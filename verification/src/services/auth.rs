//! Issuing and checking tokens: signed access tokens (JWT, HMAC-SHA256) and
//! random refresh tokens stored as their SHA-256 hex digest.
use vstd::prelude::*;
use vstd::utf8::encode_utf8;
use crate::clock::{add_days, add_seconds, after_days, after_seconds, clock_instant, now, unix_seconds, unix_seconds_of};
use crate::error::ApiError;
use crate::text::{hex_encode, hex_text, is_lower_hex_char, lemma_hex_text_shape, str_eq};
use hmac::{Hmac, Mac};
use serde_json::Value;
use sha2::Sha256;
use jwt::{SignWithKey, VerifyWithKey};
use digest::Digest;

verus! {

/// Claims of an access token: subject, email, user id, expiry and issue
/// time (whole Unix seconds).
#[derive(Debug, Clone, PartialEq, Eq)]
pub struct AccessTokenClaims {
    pub sub: String,
    pub email: String,
    pub user_id: u128,
    pub exp: usize,
    pub iat: usize,
}

/// `(sub, email, user_id, exp, iat)`.
pub type AccessClaimsView = (Seq<char>, Seq<char>, u128, usize, usize);

impl View for AccessTokenClaims {
    type V = AccessClaimsView;

    open spec fn view(&self) -> AccessClaimsView {
        (self.sub@, self.email@, self.user_id, self.exp, self.iat)
    }
}

/// Claims of a refresh token in JWT form: subject, token id, expiry and issue time.
#[derive(Debug, Clone, PartialEq, Eq)]
pub struct RefreshTokenClaims {
    pub sub: String,
    pub jti: String,
    pub exp: usize,
    pub iat: usize,
}

/// `(sub, jti, exp, iat)`.
pub type RefreshClaimsView = (Seq<char>, Seq<char>, usize, usize);

impl View for RefreshTokenClaims {
    type V = RefreshClaimsView;

    open spec fn view(&self) -> RefreshClaimsView {
        (self.sub@, self.jti@, self.exp, self.iat)
    }
}

/// The SHA-256 digest of a byte string.
pub uninterp spec fn sha256_digest(data: Seq<u8>) -> Seq<u8>;

/// `sha2::Sha256` over `data`: the digest, 32 bytes long.
#[verifier::external_body]
fn sha256(data: &[u8]) -> (r: Vec<u8>)
    ensures
        r@ == sha256_digest(data@),
        r@.len() == 32,
{
    let mut hasher = Sha256::new();
    Digest::update(&mut hasher, data);
    hasher.finalize().to_vec()
}

/// The compact JWT (header `{"alg":"HS256"}`) that `jwt` produces for the claims
/// object `{"sub":..,"email":..,"user_id":..,"exp":..,"iat":..}` signed with
/// HMAC-SHA256 under the UTF-8 bytes of `secret`.
pub uninterp spec fn jwt_access_token(
    secret: Seq<char>,
    sub: Seq<char>,
    email: Seq<char>,
    user_id: u128,
    exp: usize,
    iat: usize,
) -> Seq<char>;

/// `jwt` finds `token` validly signed under `secret`: three parts separated by
/// dots, a header naming HS256, and a signature part whose base64url decoding
/// is the HMAC-SHA256, keyed with the UTF-8 bytes of `secret`, of the first two
/// parts joined by a dot.
pub uninterp spec fn jwt_hs256_valid(secret: Seq<char>, token: Seq<char>) -> bool;

/// The claims `jwt` accepts in `token` under `secret` (signature checked, claims
/// decoded), or `None` where it refuses the token.
pub uninterp spec fn jwt_access_claims(secret: Seq<char>, token: Seq<char>) -> Option<AccessClaimsView>;

/// The refresh claims `jwt` accepts in `token` under `secret`, or `None`.
pub uninterp spec fn jwt_refresh_claims(secret: Seq<char>, token: Seq<char>) -> Option<RefreshClaimsView>;

/// `Token::new(Header::default(), claims).sign_with_key(&Hmac<Sha256>)` from the
/// `jwt` crate, with the claims as a JSON object in the field order above and
/// the user id in hyphenated UUID form. Signing a JSON object with an HMAC key
/// does not fail in `jwt`, so nothing is left to report; the token it writes
/// is validly signed under the secret (default header: HS256).
#[verifier::external_body]
fn jwt_sign_access(secret: &str, sub: &str, email: &str, user_id: u128, exp: usize, iat: usize) -> (r: String)
    ensures
        r@ == jwt_access_token(secret@, sub@, email@, user_id, exp, iat),
        jwt_hs256_valid(secret@, r@),
{
    let key: Hmac<Sha256> = Hmac::new_from_slice(secret.as_bytes()).expect("HMAC takes keys of any size");
    let mut claims = serde_json::Map::new();
    claims.insert("sub".into(), sub.into());
    claims.insert("email".into(), email.into());
    claims.insert("user_id".into(), uuid::Uuid::from_u128(user_id).to_string().into());
    claims.insert("exp".into(), exp.into());
    claims.insert("iat".into(), iat.into());
    let token = jwt::Token::new(jwt::Header::default(), Value::Object(claims));
    token.sign_with_key(&key).expect("HMAC signing does not fail").as_str().to_string()
}

/// `str::verify_with_key` from the `jwt` crate with an HMAC-SHA256 key, the
/// claims read as the fields `sub`, `email`, `user_id` (UUID text), `exp` and
/// `iat`, from a JSON object by name or from a JSON array in that order, as a
/// derived `Deserialize` reads them. Stated beyond the name: claims come back
/// only for a validly signed token; and a token it signed under `secret` is
/// accepted under `secret` with the same claims (JSON strings, unsigned numbers
/// and UUID text come back unchanged). Unlike a derived `Deserialize`, an
/// object that repeats a field is read with its last value.
#[verifier::external_body]
fn jwt_verify_access(secret: &str, token: &str) -> (r: Option<(String, String, u128, usize, usize)>)
    ensures
        match r {
            Some(c) => jwt_access_claims(secret@, token@) == Some((c.0@, c.1@, c.2, c.3, c.4)),
            None => jwt_access_claims(secret@, token@) is None,
        },
        r is Some ==> jwt_hs256_valid(secret@, token@),
        r is Some || forall|sub: Seq<char>, email: Seq<char>, user_id: u128, exp: usize, iat: usize|
            token@ != #[trigger] jwt_access_token(secret@, sub, email, user_id, exp, iat),
        r matches Some(c) ==> forall|sub: Seq<char>, email: Seq<char>, user_id: u128, exp: usize, iat: usize|
            token@ == #[trigger] jwt_access_token(secret@, sub, email, user_id, exp, iat) ==> (
            c.0@ == sub && c.1@ == email && c.2 == user_id && c.3 == exp && c.4 == iat),
{
    let key: Hmac<Sha256> = Hmac::new_from_slice(secret.as_bytes()).expect("HMAC takes keys of any size");
    let row = match token.verify_with_key(&key).ok()? {
        Value::Array(items) => items,
        other => ["sub", "email", "user_id", "exp", "iat"].map(|k| other[k].clone()).to_vec(),
    };
    let row: (String, String, uuid::Uuid, usize, usize) = serde_json::from_value(Value::Array(row)).ok()?;
    Some((row.0, row.1, row.2.as_u128(), row.3, row.4))
}

/// `str::verify_with_key` from the `jwt` crate with an HMAC-SHA256 key, the
/// claims read as the fields `sub`, `jti`, `exp` and `iat`, from a JSON object
/// by name or from a JSON array in that order. Stated beyond the name: claims
/// come back only for a validly signed token, and never for an access token
/// signed under `secret`, whose claims have no `jti`. Unlike a derived
/// `Deserialize`, an object that repeats a field is read with its last value.
#[verifier::external_body]
fn jwt_verify_refresh(secret: &str, token: &str) -> (r: Option<(String, String, usize, usize)>)
    ensures
        match r {
            Some(c) => jwt_refresh_claims(secret@, token@) == Some((c.0@, c.1@, c.2, c.3)),
            None => jwt_refresh_claims(secret@, token@) is None,
        },
        r is Some ==> jwt_hs256_valid(secret@, token@),
        r is None || forall|sub: Seq<char>, email: Seq<char>, user_id: u128, exp: usize, iat: usize|
            token@ != #[trigger] jwt_access_token(secret@, sub, email, user_id, exp, iat),
{
    let key: Hmac<Sha256> = Hmac::new_from_slice(secret.as_bytes()).expect("HMAC takes keys of any size");
    let row = match token.verify_with_key(&key).ok()? {
        Value::Array(items) => items,
        other => ["sub", "jti", "exp", "iat"].map(|k| other[k].clone()).to_vec(),
    };
    let row: (String, String, usize, usize) = serde_json::from_value(Value::Array(row)).ok()?;
    Some(row)
}

/// `rand::rngs::OsRng::fill_bytes` on a 32-byte buffer: 32 bytes from the
/// operating system's generator (it panics only if the system generator fails).
#[verifier::external_body]
pub(crate) fn random_token_bytes() -> (r: Vec<u8>)
    ensures
        r@.len() == 32,
{
    let mut bytes = [0u8; 32];
    rand::RngCore::fill_bytes(&mut rand::rngs::OsRng, &mut bytes);
    bytes.to_vec()
}

/// The text of a signed access token with claims `c`.
pub open spec fn access_token_text(secret: Seq<char>, c: AccessClaimsView) -> Seq<char> {
    jwt_access_token(secret, c.0, c.1, c.2, c.3, c.4)
}

/// Claims of the access token issued at `now_us` to `user_id` with `email`,
/// valid for `expiry_secs` seconds; `None` where the expiry is out of range.
pub open spec fn access_claims_spec(user_id: u128, email: Seq<char>, now_us: int, expiry_secs: int) -> Option<AccessClaimsView> {
    match after_seconds(now_us, expiry_secs) {
        Some(exp_us) => Some((email, email, user_id, unix_seconds(exp_us) as usize, unix_seconds(now_us) as usize)),
        None => None,
    }
}

/// The stored form of a refresh token: hex of the SHA-256 digest of its UTF-8 bytes.
pub open spec fn token_hash_text(token: Seq<char>) -> Seq<char> {
    hex_text(sha256_digest(encode_utf8(token)))
}

/// `t` is an access token the service issues to this user at some instant.
pub open spec fn issued_access_token(service: AuthService, user_id: u128, email: Seq<char>, t: Seq<char>) -> bool {
    exists|now: i64| clock_instant(now as int) && (#[trigger] access_claims_spec(user_id, email, now as int, service.access_expiry() as int)
        matches Some(c) && t == access_token_text(service.secret(), c))
}

/// What `generate_access_token` returns when the clock reads `now`.
pub open spec fn access_token_outcome(service: AuthService, user_id: u128, email: Seq<char>, now: int, r: Result<String, ApiError>) -> bool {
    match access_claims_spec(user_id, email, now, service.access_expiry() as int) {
        Some(c) => r matches Ok(t) && t@ == access_token_text(service.secret(), c),
        None => r matches Err(ApiError::InternalError(_)),
    }
}

/// `(t, h, e)` is a refresh token the service issues at some instant: the hex
/// of 32 random bytes, its stored form, and its expiry.
pub open spec fn issued_refresh_token(service: AuthService, t: Seq<char>, h: Seq<char>, expires_at: i64) -> bool {
    &&& is_refresh_token_text(t)
    &&& exists|b: Seq<u8>| b.len() == 32 && t == #[trigger] hex_text(b)
    &&& h == token_hash_text(t)
    &&& exists|now: i64| clock_instant(now as int) && #[trigger] after_days(now as int, service.refresh_expiry() as int) == Some(expires_at as int)
}

/// What `generate_refresh_token` returns when the random generator gives
/// `random` and the clock reads `now`.
pub open spec fn refresh_token_outcome(service: AuthService, random: Seq<u8>, now: int, r: Result<(String, String, i64), ApiError>) -> bool {
    match after_days(now, service.refresh_expiry() as int) {
        Some(e) => r matches Ok(p) && p.0@ == hex_text(random) && p.1@ == token_hash_text(p.0@) && p.2 == e,
        None => r matches Err(ApiError::InternalError(_)),
    }
}

/// The tokens of a session issued at `now` (microseconds) to `user_id` with
/// `email`, the refresh token made of `random`: the access token, the refresh
/// token, its stored form and its expiry; `None` where an expiry is out of range.
pub open spec fn session_tokens(service: AuthService, user_id: u128, email: Seq<char>, random: Seq<u8>, now: int) -> Option<(Seq<char>, Seq<char>, Seq<char>, int)> {
    match (access_claims_spec(user_id, email, now, service.access_expiry() as int), after_days(now, service.refresh_expiry() as int)) {
        (Some(c), Some(e)) => Some((access_token_text(service.secret(), c), hex_text(random), token_hash_text(hex_text(random)), e)),
        _ => None,
    }
}

/// Text of a fresh refresh token: lowercase hex of 32 random bytes.
pub open spec fn is_refresh_token_text(t: Seq<char>) -> bool {
    &&& t.len() == 64
    &&& forall|i: int| 0 <= i < t.len() ==> is_lower_hex_char(#[trigger] t[i])
}

/// Issues and checks tokens with one secret and two lifetimes: access tokens
/// in seconds, refresh tokens in days.
#[derive(Debug, Clone)]
pub struct AuthService {
    jwt_secret: String,
    access_expiry_secs: i64,
    refresh_expiry_days: i64,
}

impl AuthService {
    pub closed spec fn secret(&self) -> Seq<char> {
        self.jwt_secret@
    }

    pub closed spec fn access_expiry(&self) -> i64 {
        self.access_expiry_secs
    }

    pub closed spec fn refresh_expiry(&self) -> i64 {
        self.refresh_expiry_days
    }

    pub fn new(jwt_secret: String, access_expiry_secs: i64, refresh_expiry_days: i64) -> (r: Self)
        ensures
            r.secret() == jwt_secret@,
            r.access_expiry() == access_expiry_secs,
            r.refresh_expiry() == refresh_expiry_days,
    {
        AuthService { jwt_secret, access_expiry_secs, refresh_expiry_days }
    }

    /// The claims of an access token issued at `now_us`: subject and email are
    /// the email, expiry is `access_expiry` seconds later. `None` where chrono
    /// cannot represent the expiry.
    pub fn access_claims_at(&self, user_id: u128, email: &str, now_us: i64) -> (r: Option<AccessTokenClaims>)
        ensures
            match r {
                Some(c) => access_claims_spec(user_id, email@, now_us as int, self.access_expiry() as int) == Some(c@),
                None => access_claims_spec(user_id, email@, now_us as int, self.access_expiry() as int) is None,
            },
    {
        match add_seconds(now_us, self.access_expiry_secs) {
            Some(exp_us) => {
                let exp = unix_seconds_of(exp_us) as usize;
                let iat = unix_seconds_of(now_us) as usize;
                Some(AccessTokenClaims { sub: email.to_owned(), email: email.to_owned(), user_id, exp, iat })
            },
            None => None,
        }
    }

    /// Signs the claims into a compact JWT under the service's secret.
    pub fn sign_access_claims(&self, claims: &AccessTokenClaims) -> (r: String)
        ensures
            r@ == access_token_text(self.secret(), claims@),
    {
        jwt_sign_access(self.jwt_secret.as_str(), claims.sub.as_str(), claims.email.as_str(), claims.user_id, claims.exp, claims.iat)
    }

    /// The access token issued at `now_us`; an internal error where the expiry
    /// is out of range.
    pub fn generate_access_token_at(&self, user_id: u128, email: &str, now_us: i64) -> (r: Result<String, ApiError>)
        ensures
            access_token_outcome(*self, user_id, email@, now_us as int, r),
    {
        match self.access_claims_at(user_id, email, now_us) {
            Some(claims) => Ok(self.sign_access_claims(&claims)),
            None => Err(ApiError::InternalError("access token expiry out of range".to_owned())),
        }
    }

    /// The access token issued now (system clock) to `user_id` with `email`:
    /// what `generate_access_token_at` gives at the instant the clock reads.
    pub fn generate_access_token(&self, user_id: u128, email: &str) -> (r: Result<String, ApiError>)
        ensures
            exists|now: i64| clock_instant(now as int) && #[trigger] access_token_outcome(*self, user_id, email@, now as int, r),
            r matches Ok(t) ==> issued_access_token(*self, user_id, email@, t@),
    {
        let now = now().micros;
        let r = self.generate_access_token_at(user_id, email, now);
        proof {
            assert(access_token_outcome(*self, user_id, email@, now as int, r));
        }
        r
    }

    /// The claims of an access token signed under the service's secret, or
    /// `InvalidToken`. A token this service signed comes back with the claims
    /// it was signed with; a token not validly signed under the secret is
    /// refused.
    pub fn verify_access_token(&self, token_str: &str) -> (r: Result<AccessTokenClaims, ApiError>)
        ensures
            match jwt_access_claims(self.secret(), token_str@) {
                Some(c) => r matches Ok(x) && x@ == c,
                None => r == Err::<AccessTokenClaims, ApiError>(ApiError::InvalidToken),
            },
            !jwt_hs256_valid(self.secret(), token_str@) ==> r == Err::<AccessTokenClaims, ApiError>(ApiError::InvalidToken),
            forall|c: AccessClaimsView| token_str@ == #[trigger] access_token_text(self.secret(), c) ==> (r matches Ok(x) && x@ == c),
    {
        match jwt_verify_access(self.jwt_secret.as_str(), token_str) {
            Some(c) => {
                proof {
                    assert forall|v: AccessClaimsView| token_str@ == #[trigger] access_token_text(self.secret(), v) implies (c.0@ == v.0 && c.1@ == v.1 && c.2 == v.2 && c.3 == v.3 && c.4 == v.4) by {
                        assert(token_str@ == jwt_access_token(self.secret(), v.0, v.1, v.2, v.3, v.4));
                    }
                }
                Ok(AccessTokenClaims { sub: c.0, email: c.1, user_id: c.2, exp: c.3, iat: c.4 })
            },
            None => {
                proof {
                    assert forall|v: AccessClaimsView| !(token_str@ == #[trigger] access_token_text(self.secret(), v)) by {
                        if token_str@ == access_token_text(self.secret(), v) {
                            assert(token_str@ == jwt_access_token(self.secret(), v.0, v.1, v.2, v.3, v.4));
                        }
                    }
                }
                Err(ApiError::InvalidToken)
            },
        }
    }

    /// The stored form of a refresh token: lowercase hex of its SHA-256 digest.
    pub fn hash_token(token: &str) -> (r: String)
        ensures
            r@ == token_hash_text(token@),
            r@.len() == 64,
            forall|i: int| 0 <= i < r@.len() ==> is_lower_hex_char(#[trigger] r@[i]),
    {
        let digest = sha256(token.as_bytes());
        proof {
            lemma_hex_text_shape(digest@);
        }
        hex_encode(digest.as_slice())
    }

    /// Whether `stored_hash` is the stored form of `token`.
    pub fn verify_refresh_token_hash(token: &str, stored_hash: &str) -> (r: bool)
        ensures
            r == (token_hash_text(token@) == stored_hash@),
    {
        let token_hash = Self::hash_token(token);
        str_eq(token_hash.as_str(), stored_hash)
    }

    /// A refresh token made of the given random bytes at `now_us`: its text,
    /// its stored form and its expiry `refresh_expiry` days later; `None` where
    /// chrono cannot represent the expiry.
    pub fn refresh_token_at(&self, random: &[u8], now_us: i64) -> (r: Option<(String, String, i64)>)
        ensures
            match after_days(now_us as int, self.refresh_expiry() as int) {
                Some(e) => r matches Some(p) && p.0@ == hex_text(random@) && p.1@ == token_hash_text(p.0@) && p.2 == e,
                None => r is None,
            },
    {
        match add_days(now_us, self.refresh_expiry_days) {
            Some(expiry) => {
                let token = hex_encode(random);
                let token_hash = Self::hash_token(token.as_str());
                Some((token, token_hash, expiry))
            },
            None => None,
        }
    }

    /// The tokens of a session issued at `now_us` to `user_id` with `email`:
    /// the access token, then the refresh token made of `random`, its stored
    /// form and its expiry; an internal error where either expiry is out of range.
    pub fn issue_session_at(&self, user_id: u128, email: &str, random: &[u8], now_us: i64) -> (r: Result<(String, String, String, i64), ApiError>)
        ensures
            match session_tokens(*self, user_id, email@, random@, now_us as int) {
                Some(x) => r matches Ok(p) && p.0@ == x.0 && p.1@ == x.1 && p.2@ == x.2 && p.3 == x.3,
                None => r matches Err(ApiError::InternalError(_)),
            },
    {
        let access = self.generate_access_token_at(user_id, email, now_us)?;
        match self.refresh_token_at(random, now_us) {
            Some((refresh, refresh_hash, expires_at)) => Ok((access, refresh, refresh_hash, expires_at)),
            None => Err(ApiError::InternalError("refresh token expiry out of range".to_owned())),
        }
    }

    /// A fresh refresh token from 32 bytes of the system's random generator,
    /// with its stored form and its expiry (microseconds) `refresh_expiry` days
    /// after now; an internal error where the expiry is out of range.
    pub fn generate_refresh_token(&self) -> (r: Result<(String, String, i64), ApiError>)
        ensures
            exists|random: Seq<u8>, now: i64| random.len() == 32 && clock_instant(now as int)
                && #[trigger] refresh_token_outcome(*self, random, now as int, r),
            r matches Ok(p) ==> issued_refresh_token(*self, p.0@, p.1@, p.2),
    {
        let random = random_token_bytes();
        let now = now().micros;
        proof {
            lemma_hex_text_shape(random@);
        }
        let r = match self.refresh_token_at(random.as_slice(), now) {
            Some(p) => Ok(p),
            None => Err(ApiError::InternalError("refresh token expiry out of range".to_owned())),
        };
        proof {
            assert(refresh_token_outcome(*self, random@, now as int, r));
        }
        r
    }

    /// The claims of a refresh token in JWT form signed under the service's
    /// secret, or `InvalidToken`. A token not validly signed under the secret
    /// is refused, and so is an access token the service signed.
    pub fn decode_refresh_token(&self, token_str: &str) -> (r: Result<RefreshTokenClaims, ApiError>)
        ensures
            match jwt_refresh_claims(self.secret(), token_str@) {
                Some(c) => r matches Ok(x) && x@ == c,
                None => r == Err::<RefreshTokenClaims, ApiError>(ApiError::InvalidToken),
            },
            !jwt_hs256_valid(self.secret(), token_str@) ==> r == Err::<RefreshTokenClaims, ApiError>(ApiError::InvalidToken),
            forall|c: AccessClaimsView| token_str@ == #[trigger] access_token_text(self.secret(), c)
                ==> r == Err::<RefreshTokenClaims, ApiError>(ApiError::InvalidToken),
    {
        match jwt_verify_refresh(self.jwt_secret.as_str(), token_str) {
            Some(c) => {
                proof {
                    assert forall|v: AccessClaimsView| !(token_str@ == #[trigger] access_token_text(self.secret(), v)) by {
                        if token_str@ == access_token_text(self.secret(), v) {
                            assert(token_str@ == jwt_access_token(self.secret(), v.0, v.1, v.2, v.3, v.4));
                        }
                    }
                }
                Ok(RefreshTokenClaims { sub: c.0, jti: c.1, exp: c.2, iat: c.3 })
            },
            None => Err(ApiError::InvalidToken),
        }
    }
}

} // verus!
