//! The claims of a request: from an `Authorization: Bearer` header, else from
//! the `access_token` cookie.
use vstd::prelude::*;
use crate::config::Config;
use crate::error::ApiError;
use crate::middleware::auth::{bearer_token, bearer_token_of};
use crate::services::auth::{access_token_text, jwt_access_claims, AccessClaimsView, AccessTokenClaims, AuthService};
use crate::text::opt_text;

verus! {

/// The token a request presents: the bearer token of the header if there is
/// one, else the access cookie's value.
pub open spec fn presented_token(authorization: Option<Seq<char>>, access_cookie: Option<Seq<char>>) -> Option<Seq<char>> {
    let bearer = match authorization {
        Some(h) => bearer_token(h),
        None => None,
    };
    match bearer {
        Some(t) => Some(t),
        None => access_cookie,
    }
}

/// The claims of a request: `Unauthorized` without a token, `InvalidToken`
/// for a token the secret does not sign.
pub open spec fn spec_request_claims(
    secret: Seq<char>,
    authorization: Option<Seq<char>>,
    access_cookie: Option<Seq<char>>,
) -> Result<AccessClaimsView, ApiError> {
    match presented_token(authorization, access_cookie) {
        None => Err(ApiError::Unauthorized),
        Some(t) => match jwt_access_claims(secret, t) {
            Some(c) => Ok(c),
            None => Err(ApiError::InvalidToken),
        },
    }
}

/// The claims of a request with this `Authorization` header value (absent
/// also when it is not visible ASCII) and this `access_token` cookie value.
pub fn claims_from_request(config: &Config, authorization: Option<&str>, access_cookie: Option<&str>) -> (r: Result<AccessTokenClaims, ApiError>)
    ensures
        match r {
            Ok(c) => spec_request_claims(config.jwt_secret@, opt_text(authorization), opt_text(access_cookie)) == Ok::<AccessClaimsView, ApiError>(c@),
            Err(e) => spec_request_claims(config.jwt_secret@, opt_text(authorization), opt_text(access_cookie)) == Err::<AccessClaimsView, ApiError>(e),
        },
        forall|c: AccessClaimsView|
            presented_token(opt_text(authorization), opt_text(access_cookie)) == Some(#[trigger] access_token_text(config.jwt_secret@, c))
                ==> (r matches Ok(x) && x@ == c),
{
    let bearer = match authorization {
        Some(h) => bearer_token_of(h),
        None => None,
    };
    let token = match bearer {
        Some(t) => t,
        None => match access_cookie {
            Some(c) => c.to_owned(),
            None => return Err(ApiError::Unauthorized),
        },
    };
    let service = AuthService::new(config.jwt_secret.clone(), config.jwt_access_expiry, config.jwt_refresh_expiry);
    service.verify_access_token(token.as_str())
}

} // verus!
