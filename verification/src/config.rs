//! Settings of the service, taken from environment variables.
use vstd::prelude::*;
use crate::text::{has_prefix, starts_with, str_eq};

verus! {

/// `i64::MIN` and `i64::MAX` as integers.
pub open spec fn i64_min() -> int {
    -0x8000_0000_0000_0000
}

pub open spec fn i64_max() -> int {
    0x7fff_ffff_ffff_ffff
}

pub open spec fn is_digit(c: char) -> bool {
    '0' <= c && c <= '9'
}

pub open spec fn digit_value(c: char) -> int {
    (c as int) - ('0' as int)
}

/// Value of a string of decimal digits.
pub open spec fn digits_value(s: Seq<char>) -> int
    decreases s.len(),
{
    if s.len() == 0 {
        0
    } else {
        digits_value(s.drop_last()) * 10 + digit_value(s.last())
    }
}

pub open spec fn all_digits(s: Seq<char>) -> bool {
    forall|i: int| 0 <= i < s.len() ==> is_digit(#[trigger] s[i])
}

/// What `str::parse::<i64>` accepts: an optional `+` or `-`, then one or more
/// decimal digits, with a value that fits in `i64`.
pub open spec fn spec_parse_i64(s: Seq<char>) -> Option<int> {
    let signed = s.len() > 0 && (s[0] == '-' || s[0] == '+');
    let body = if signed { s.drop_first() } else { s };
    let magnitude = digits_value(body);
    let v = if s.len() > 0 && s[0] == '-' { -magnitude } else { magnitude };
    if body.len() > 0 && all_digits(body) && i64_min() <= v <= i64_max() {
        Some(v)
    } else {
        None
    }
}

/// What `str::parse::<bool>` accepts: exactly `true` or `false`.
pub open spec fn spec_parse_bool(s: Seq<char>) -> Option<bool> {
    if s == "true"@ {
        Some(true)
    } else if s == "false"@ {
        Some(false)
    } else {
        None
    }
}

proof fn lemma_digits_value_nonneg(s: Seq<char>)
    requires
        all_digits(s),
    ensures
        digits_value(s) >= 0,
    decreases s.len(),
{
    if s.len() > 0 {
        assert(all_digits(s.drop_last())) by {
            assert forall|i: int| 0 <= i < s.drop_last().len() implies is_digit(#[trigger] s.drop_last()[i]) by {
                assert(s.drop_last()[i] == s[i]);
            }
        }
        lemma_digits_value_nonneg(s.drop_last());
        assert(is_digit(s[s.len() - 1]));
    }
}

/// `str::parse::<i64>`.
pub fn parse_i64(s: &str) -> (r: Option<i64>)
    ensures
        match r {
            Some(v) => spec_parse_i64(s@) == Some(v as int),
            None => spec_parse_i64(s@) is None,
        },
{
    let n = s.unicode_len();
    let mut start: usize = 0;
    let mut neg = false;
    if n > 0 {
        let c0 = s.get_char(0);
        if c0 == '-' {
            start = 1;
            neg = true;
        } else if c0 == '+' {
            start = 1;
        }
    }
    let ghost body = if start == 1 { s@.drop_first() } else { s@ };
    assert(body == (if s@.len() > 0 && (s@[0] == '-' || s@[0] == '+') { s@.drop_first() } else { s@ }));
    assert(neg == (s@.len() > 0 && s@[0] == '-'));
    assert(body =~= s@.subrange(start as int, n as int));
    if start >= n {
        return None;
    }
    let bound: u128 = 0x8000_0000_0000_0000u128;
    let mut acc: u128 = 0;
    let mut over = false;
    let mut i: usize = start;
    while i < n
        invariant
            n == s@.len(),
            start <= i <= n,
            body == s@.subrange(start as int, n as int),
            body == (if s@.len() > 0 && (s@[0] == '-' || s@[0] == '+') { s@.drop_first() } else { s@ }),
            bound == 0x8000_0000_0000_0000u128,
            forall|j: int| start <= j < i ==> is_digit(#[trigger] s@[j]),
            all_digits(body.subrange(0, i - start)),
            !over ==> acc as int == digits_value(body.subrange(0, i - start)) && acc <= bound,
            over ==> digits_value(body.subrange(0, i - start)) > bound,
        decreases n - i,
    {
        let c = s.get_char(i);
        if !('0' <= c && c <= '9') {
            assert(body[i - start] == c);
            assert(!all_digits(body));
            return None;
        }
        let ghost pre = body.subrange(0, i - start);
        let ghost post = body.subrange(0, i - start + 1);
        assert(post.drop_last() =~= pre);
        assert(post.last() == c);
        assert(all_digits(post)) by {
            assert forall|j: int| 0 <= j < post.len() implies is_digit(#[trigger] post[j]) by {
                if j < pre.len() {
                    assert(post[j] == pre[j]);
                }
            }
        }
        let d: u128 = ((c as u32) - ('0' as u32)) as u128;
        if !over {
            assert(acc <= bound);
            let next = acc * 10 + d;
            if next > bound {
                over = true;
            } else {
                acc = next;
            }
        } else {
            proof {
                lemma_digits_value_nonneg(pre);
            }
        }
        i = i + 1;
    }
    assert(body.subrange(0, n - start) =~= body);
    if over {
        return None;
    }
    if neg {
        if acc == bound {
            Some(-0x8000_0000_0000_0000i64)
        } else {
            Some(-(acc as i64))
        }
    } else {
        if acc >= bound {
            None
        } else {
            Some(acc as i64)
        }
    }
}

/// `str::parse::<bool>`.
pub fn parse_bool(s: &str) -> (r: Option<bool>)
    ensures
        r == spec_parse_bool(s@),
{
    if str_eq(s, "true") {
        Some(true)
    } else if str_eq(s, "false") {
        Some(false)
    } else {
        None
    }
}

/// What `std::env::var` found for a variable.
#[derive(Debug, Clone, PartialEq, Eq)]
pub enum EnvValue {
    Present(String),
    NotPresent,
    NotUnicode,
}

/// `std::env::VarError`: why a required variable could not be read.
#[derive(Debug, Clone, Copy, PartialEq, Eq)]
pub enum ConfigError {
    NotPresent,
    NotUnicode,
}

/// The environment variables the service reads.
#[derive(Debug, Clone, PartialEq, Eq)]
pub struct EnvVars {
    pub frontend_url: EnvValue,
    pub cookie_secure: EnvValue,
    pub database_url: EnvValue,
    pub jwt_secret: EnvValue,
    pub jwt_access_expiry: EnvValue,
    pub jwt_refresh_expiry: EnvValue,
    pub google_client_id: EnvValue,
    pub google_client_secret: EnvValue,
    pub google_redirect_url: EnvValue,
}

/// Settings of the service.
#[derive(Debug, Clone, PartialEq, Eq)]
pub struct Config {
    pub database_url: String,
    pub jwt_secret: String,
    pub jwt_access_expiry: i64,
    pub jwt_refresh_expiry: i64,
    pub google_client_id: String,
    pub google_client_secret: String,
    pub google_redirect_url: String,
    pub frontend_url: String,
    pub cookie_secure: bool,
}

pub open spec fn var_error(v: EnvValue) -> Option<ConfigError> {
    match v {
        EnvValue::Present(_) => None,
        EnvValue::NotPresent => Some(ConfigError::NotPresent),
        EnvValue::NotUnicode => Some(ConfigError::NotUnicode),
    }
}

pub open spec fn var_text(v: EnvValue) -> Seq<char> {
    match v {
        EnvValue::Present(s) => s@,
        _ => Seq::empty(),
    }
}

pub open spec fn var_number(v: EnvValue) -> Option<int> {
    match v {
        EnvValue::Present(s) => spec_parse_i64(s@),
        _ => None,
    }
}

/// Cookies are marked secure unless the frontend is served from localhost.
pub open spec fn default_cookie_secure(frontend_url: Seq<char>) -> bool {
    !(has_prefix(frontend_url, "http://localhost"@) || has_prefix(frontend_url, "http://127.0.0.1"@))
}

/// `COOKIE_SECURE` when it reads as a boolean, else the default for the frontend.
pub open spec fn spec_cookie_secure(cookie_secure: EnvValue, frontend_url: Seq<char>) -> bool {
    match cookie_secure {
        EnvValue::Present(s) => match spec_parse_bool(s@) {
            Some(b) => b,
            None => default_cookie_secure(frontend_url),
        },
        _ => default_cookie_secure(frontend_url),
    }
}

/// Reading the settings panics: a lifetime is reached and is not a number.
pub open spec fn from_vars_panics(v: EnvVars) -> bool {
    &&& v.frontend_url is Present
    &&& v.database_url is Present
    &&& v.jwt_secret is Present
    &&& v.jwt_access_expiry is Present
    &&& (var_number(v.jwt_access_expiry) is None || (v.jwt_refresh_expiry is Present && var_number(
        v.jwt_refresh_expiry,
    ) is None))
}

/// The error of the first required variable, in reading order, that is missing.
pub open spec fn from_vars_error(v: EnvVars) -> Option<ConfigError> {
    if var_error(v.frontend_url) is Some {
        var_error(v.frontend_url)
    } else if var_error(v.database_url) is Some {
        var_error(v.database_url)
    } else if var_error(v.jwt_secret) is Some {
        var_error(v.jwt_secret)
    } else if var_error(v.jwt_access_expiry) is Some {
        var_error(v.jwt_access_expiry)
    } else if var_error(v.jwt_refresh_expiry) is Some {
        var_error(v.jwt_refresh_expiry)
    } else if var_error(v.google_client_id) is Some {
        var_error(v.google_client_id)
    } else if var_error(v.google_client_secret) is Some {
        var_error(v.google_client_secret)
    } else {
        var_error(v.google_redirect_url)
    }
}

/// `c` holds the settings the variables give.
pub open spec fn config_from(c: Config, v: EnvVars) -> bool {
    &&& c.frontend_url@ == var_text(v.frontend_url)
    &&& c.database_url@ == var_text(v.database_url)
    &&& c.jwt_secret@ == var_text(v.jwt_secret)
    &&& var_number(v.jwt_access_expiry) == Some(c.jwt_access_expiry as int)
    &&& var_number(v.jwt_refresh_expiry) == Some(c.jwt_refresh_expiry as int)
    &&& c.google_client_id@ == var_text(v.google_client_id)
    &&& c.google_client_secret@ == var_text(v.google_client_secret)
    &&& c.google_redirect_url@ == var_text(v.google_redirect_url)
    &&& c.cookie_secure == spec_cookie_secure(v.cookie_secure, var_text(v.frontend_url))
}

fn required(v: EnvValue) -> (r: Result<String, ConfigError>)
    ensures
        match r {
            Ok(s) => var_error(v) is None && s@ == var_text(v),
            Err(e) => var_error(v) == Some(e),
        },
{
    match v {
        EnvValue::Present(s) => Ok(s),
        EnvValue::NotPresent => Err(ConfigError::NotPresent),
        EnvValue::NotUnicode => Err(ConfigError::NotUnicode),
    }
}

impl EnvVars {
    /// Whether reading these variables would hit a lifetime that is not a
    /// number, where the service stops with a panic.
    pub fn parse_would_panic(&self) -> (r: bool)
        ensures
            r == from_vars_panics(*self),
    {
        let reached = matches!(self.frontend_url, EnvValue::Present(_)) && matches!(self.database_url, EnvValue::Present(_))
            && matches!(self.jwt_secret, EnvValue::Present(_));
        if !reached {
            return false;
        }
        match &self.jwt_access_expiry {
            EnvValue::Present(a) => {
                if parse_i64(a.as_str()).is_none() {
                    return true;
                }
                match &self.jwt_refresh_expiry {
                    EnvValue::Present(b) => parse_i64(b.as_str()).is_none(),
                    _ => false,
                }
            },
            _ => false,
        }
    }
}

impl Config {
    /// `COOKIE_SECURE` when it reads as a boolean, else secure unless the
    /// frontend URL starts with `http://localhost` or `http://127.0.0.1`.
    pub fn cookie_secure_setting(cookie_secure: &EnvValue, frontend_url: &str) -> (r: bool)
        ensures
            r == spec_cookie_secure(*cookie_secure, frontend_url@),
    {
        let explicit = match cookie_secure {
            EnvValue::Present(s) => parse_bool(s.as_str()),
            _ => None,
        };
        match explicit {
            Some(b) => b,
            None => !(starts_with(frontend_url, "http://localhost") || starts_with(frontend_url, "http://127.0.0.1")),
        }
    }

    /// The settings from the variables, read in the order `FRONTEND_URL`,
    /// `COOKIE_SECURE` (optional), `DATABASE_URL`, `JWT_SECRET`,
    /// `JWT_ACCESS_EXPIRY`, `JWT_REFRESH_EXPIRY`, `GOOGLE_CLIENT_ID`,
    /// `GOOGLE_CLIENT_SECRET`, `GOOGLE_REDIRECT_URL`; the error of the first
    /// required one that is missing.
    pub fn from_vars(vars: EnvVars) -> (r: Result<Config, ConfigError>)
        requires
            !from_vars_panics(vars),
        ensures
            match r {
                Ok(c) => from_vars_error(vars) is None && config_from(c, vars),
                Err(e) => from_vars_error(vars) == Some(e),
            },
    {
        let ghost v = vars;
        let EnvVars {
            frontend_url,
            cookie_secure,
            database_url,
            jwt_secret,
            jwt_access_expiry,
            jwt_refresh_expiry,
            google_client_id,
            google_client_secret,
            google_redirect_url,
        } = vars;
        let frontend_url = required(frontend_url)?;
        let cookie_secure = Self::cookie_secure_setting(&cookie_secure, frontend_url.as_str());
        let database_url = required(database_url)?;
        let jwt_secret = required(jwt_secret)?;
        let access_text = required(jwt_access_expiry)?;
        let jwt_access_expiry = match parse_i64(access_text.as_str()) {
            Some(n) => n,
            None => {
                assert(false);
                0
            },
        };
        let refresh_text = required(jwt_refresh_expiry)?;
        let jwt_refresh_expiry = match parse_i64(refresh_text.as_str()) {
            Some(n) => n,
            None => {
                assert(false);
                0
            },
        };
        let google_client_id = required(google_client_id)?;
        let google_client_secret = required(google_client_secret)?;
        let google_redirect_url = required(google_redirect_url)?;
        Ok(Config {
            database_url,
            jwt_secret,
            jwt_access_expiry,
            jwt_refresh_expiry,
            google_client_id,
            google_client_secret,
            google_redirect_url,
            frontend_url,
            cookie_secure,
        })
    }
}

} // verus!
