use backend::config::{parse_bool, parse_i64, Config, ConfigError, EnvValue, EnvVars};

fn present(s: &str) -> EnvValue {
    EnvValue::Present(s.to_string())
}

fn full() -> EnvVars {
    EnvVars {
        frontend_url: present("https://app.example.com"),
        cookie_secure: EnvValue::NotPresent,
        database_url: present("postgres://db"),
        jwt_secret: present("s3cret"),
        jwt_access_expiry: present("900"),
        jwt_refresh_expiry: present("7"),
        google_client_id: present("cid"),
        google_client_secret: present("csecret"),
        google_redirect_url: present("https://api.example.com/auth/google/callback"),
    }
}

#[test]
fn reads_all_settings() {
    let c = Config::from_vars(full()).unwrap();
    assert_eq!(c.frontend_url, "https://app.example.com");
    assert_eq!(c.database_url, "postgres://db");
    assert_eq!(c.jwt_secret, "s3cret");
    assert_eq!(c.jwt_access_expiry, 900);
    assert_eq!(c.jwt_refresh_expiry, 7);
    assert_eq!(c.google_client_id, "cid");
    assert_eq!(c.google_client_secret, "csecret");
    assert_eq!(c.google_redirect_url, "https://api.example.com/auth/google/callback");
    assert!(c.cookie_secure);
}

#[test]
fn localhost_frontend_defaults_to_insecure_cookies() {
    let mut v = full();
    v.frontend_url = present("http://localhost:5173");
    assert!(!Config::from_vars(v.clone()).unwrap().cookie_secure);
    v.frontend_url = present("http://127.0.0.1:5173");
    assert!(!Config::from_vars(v.clone()).unwrap().cookie_secure);
    v.cookie_secure = present("true");
    assert!(Config::from_vars(v.clone()).unwrap().cookie_secure);
    v.cookie_secure = present("yes");
    assert!(!Config::from_vars(v).unwrap().cookie_secure);
}

#[test]
fn explicit_cookie_secure_false() {
    let mut v = full();
    v.cookie_secure = present("false");
    assert!(!Config::from_vars(v).unwrap().cookie_secure);
}

#[test]
fn first_missing_variable_decides_the_error() {
    let mut v = full();
    v.google_redirect_url = EnvValue::NotPresent;
    v.database_url = EnvValue::NotUnicode;
    assert_eq!(Config::from_vars(v), Err(ConfigError::NotUnicode));
    let mut v = full();
    v.google_client_secret = EnvValue::NotPresent;
    assert_eq!(Config::from_vars(v), Err(ConfigError::NotPresent));
    let mut v = full();
    v.frontend_url = EnvValue::NotPresent;
    v.jwt_access_expiry = present("soon");
    assert!(!v.parse_would_panic());
    assert_eq!(Config::from_vars(v), Err(ConfigError::NotPresent));
}

#[test]
fn unparsable_lifetime_would_panic() {
    let mut v = full();
    v.jwt_access_expiry = present("15m");
    assert!(v.parse_would_panic());
    let mut v = full();
    v.jwt_refresh_expiry = present("");
    assert!(v.parse_would_panic());
    let mut v = full();
    v.jwt_access_expiry = EnvValue::NotPresent;
    v.jwt_refresh_expiry = present("x");
    assert!(!v.parse_would_panic());
    assert!(!full().parse_would_panic());
}

#[test]
fn parse_i64_follows_std() {
    for s in ["0", "-0", "+5", "-9223372036854775808", "9223372036854775807", "0009", "-", "+", "", " 1", "1 ", "9223372036854775808", "-9223372036854775809", "1_0", "١"] {
        assert_eq!(parse_i64(s), s.parse::<i64>().ok(), "{s:?}");
    }
}

#[test]
fn parse_bool_follows_std() {
    for s in ["true", "false", "True", "1", "", "false "] {
        assert_eq!(parse_bool(s), s.parse::<bool>().ok(), "{s:?}");
    }
}
