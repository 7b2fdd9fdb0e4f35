//! Cookies the service sets: always HTTP-only with path `/`.
use vstd::prelude::*;

verus! {

/// Lifetime of the refresh cookie set on refresh: 7 days.
pub const REFRESH_COOKIE_MAX_AGE_SECS: i64 = 604800i64;

/// Lifetime of the access cookie set on refresh: 15 minutes.
pub const ACCESS_COOKIE_MAX_AGE_SECS: i64 = 900i64;

/// Lifetime of the CSRF cookie set when Google sign-in begins: 10 minutes.
pub const CSRF_COOKIE_MAX_AGE_SECS: i64 = 600i64;

#[derive(Debug, Clone, Copy, PartialEq, Eq)]
pub enum SameSitePolicy {
    Strict,
    Lax,
}

/// A cookie to set.
#[derive(Debug, Clone, PartialEq, Eq)]
pub struct CookieSpec {
    pub name: String,
    pub value: String,
    pub http_only: bool,
    pub secure: bool,
    pub same_site: SameSitePolicy,
    pub path: String,
    pub max_age_secs: i64,
}

/// A change to the client's cookies.
#[derive(Debug, Clone, PartialEq, Eq)]
pub enum CookieChange {
    Add(CookieSpec),
    /// Remove the cookie of this name.
    Remove(String),
}

/// `c` is the HTTP-only, path-`/` cookie with these attributes.
pub open spec fn is_cookie(
    c: CookieSpec,
    name: Seq<char>,
    value: Seq<char>,
    secure: bool,
    same_site: SameSitePolicy,
    max_age_secs: int,
) -> bool {
    &&& c.name@ == name
    &&& c.value@ == value
    &&& c.http_only
    &&& c.secure == secure
    &&& c.same_site == same_site
    &&& c.path@ == "/"@
    &&& c.max_age_secs == max_age_secs
}

/// An HTTP-only cookie for the whole site.
pub fn site_cookie(name: &str, value: String, secure: bool, same_site: SameSitePolicy, max_age_secs: i64) -> (r: CookieSpec)
    ensures
        is_cookie(r, name@, value@, secure, same_site, max_age_secs as int),
{
    CookieSpec { name: name.to_owned(), value, http_only: true, secure, same_site, path: "/".to_owned(), max_age_secs }
}

} // verus!
