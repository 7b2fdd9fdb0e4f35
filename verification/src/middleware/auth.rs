//! Authentication of invoice requests by a bearer access token.
use vstd::prelude::*;
use crate::config::Config;
use crate::services::auth::{access_token_text, jwt_access_claims, AccessClaimsView, AuthService};
use crate::text::{has_prefix, opt_text, strip_prefix};

verus! {

/// Status of a refused request.
pub const STATUS_UNAUTHORIZED: u16 = 401u16;

/// The user a request acts for.
#[derive(Debug, Clone, PartialEq, Eq)]
pub struct AuthenticatedUser {
    pub user_id: u128,
    pub email: String,
}

/// The token of an `Authorization: Bearer <token>` header value.
pub open spec fn bearer_token(header: Seq<char>) -> Option<Seq<char>> {
    if has_prefix(header, "Bearer "@) {
        Some(header.subrange(7, header.len() as int))
    } else {
        None
    }
}

/// The token of a bearer header value, if it has the `Bearer ` prefix.
pub fn bearer_token_of(header: &str) -> (r: Option<String>)
    ensures
        match r {
            Some(t) => bearer_token(header@) == Some(t@),
            None => bearer_token(header@) is None,
        },
{
    proof {
        reveal_strlit("Bearer ");
    }
    strip_prefix(header, "Bearer ")
}

/// The answer to a request with this `Authorization` header (absent also when
/// it is not visible ASCII): the user of a valid bearer token, else 401.
pub open spec fn spec_authenticate(secret: Seq<char>, authorization: Option<Seq<char>>) -> Result<(u128, Seq<char>), u16> {
    match authorization {
        None => Err(STATUS_UNAUTHORIZED),
        Some(h) => match bearer_token(h) {
            None => Err(STATUS_UNAUTHORIZED),
            Some(t) => match jwt_access_claims(secret, t) {
                None => Err(STATUS_UNAUTHORIZED),
                Some(c) => Ok((c.2, c.1)),
            },
        },
    }
}

/// Authenticates a request by its `Authorization` header.
pub fn authenticate_bearer(config: &Config, authorization: Option<&str>) -> (r: Result<AuthenticatedUser, u16>)
    ensures
        match r {
            Ok(u) => spec_authenticate(config.jwt_secret@, opt_text(authorization)) == Ok::<(u128, Seq<char>), u16>((u.user_id, u.email@)),
            Err(s) => spec_authenticate(config.jwt_secret@, opt_text(authorization)) == Err::<(u128, Seq<char>), u16>(s),
        },
        forall|c: AccessClaimsView|
            opt_text(authorization) == Some("Bearer "@ + #[trigger] access_token_text(config.jwt_secret@, c)) ==> (r matches Ok(u)
                && u.user_id == c.2 && u.email@ == c.1),
{
    proof {
        reveal_strlit("Bearer ");
        assert forall|c: AccessClaimsView|
            opt_text(authorization) == Some("Bearer "@ + #[trigger] access_token_text(config.jwt_secret@, c)) implies bearer_token(
            authorization.unwrap()@,
        ) == Some(access_token_text(config.jwt_secret@, c)) by {
            let t = access_token_text(config.jwt_secret@, c);
            let h = "Bearer "@ + t;
            assert(h.subrange(0, 7) =~= "Bearer "@);
            assert(h.subrange(7, h.len() as int) =~= t);
        }
    }
    let header = match authorization {
        Some(h) => h,
        None => return Err(STATUS_UNAUTHORIZED),
    };
    let token = match bearer_token_of(header) {
        Some(t) => t,
        None => return Err(STATUS_UNAUTHORIZED),
    };
    let service = AuthService::new(config.jwt_secret.clone(), config.jwt_access_expiry, config.jwt_refresh_expiry);
    match service.verify_access_token(token.as_str()) {
        Ok(claims) => Ok(AuthenticatedUser { user_id: claims.user_id, email: claims.email }),
        Err(_) => Err(STATUS_UNAUTHORIZED),
    }
}

} // verus!
