//! The Google OAuth client: endpoints, credentials and the authorization URL.
use vstd::prelude::*;
use crate::error::ApiError;

verus! {

/// `oauth2::AuthUrl::new` accepts the text (it parses as a URL).
pub uninterp spec fn auth_url_accepts(s: Seq<char>) -> bool;

/// `oauth2::TokenUrl::new` accepts the text (it parses as a URL).
pub uninterp spec fn token_url_accepts(s: Seq<char>) -> bool;

/// `oauth2::RedirectUrl::new` accepts the text (it parses as a URL).
pub uninterp spec fn redirect_url_accepts(s: Seq<char>) -> bool;

/// The URL `oauth2` builds for an authorization request: the auth URL with the
/// query pairs `response_type=code`, `client_id`, `state`, `redirect_uri` and
/// `scope` (the scopes joined by spaces), form-encoded.
pub uninterp spec fn authorize_url_text(
    auth_url: Seq<char>,
    client_id: Seq<char>,
    redirect_url: Seq<char>,
    csrf: Seq<char>,
    scopes: Seq<Seq<char>>,
) -> Seq<char>;

/// Whether `oauth2::AuthUrl::new` accepts the text.
#[verifier::external_body]
fn parses_as_auth_url(s: &str) -> (r: bool)
    ensures
        r == auth_url_accepts(s@),
{
    oauth2::AuthUrl::new(s.to_string()).is_ok()
}

/// Whether `oauth2::TokenUrl::new` accepts the text.
#[verifier::external_body]
fn parses_as_token_url(s: &str) -> (r: bool)
    ensures
        r == token_url_accepts(s@),
{
    oauth2::TokenUrl::new(s.to_string()).is_ok()
}

/// Whether `oauth2::RedirectUrl::new` accepts the text.
#[verifier::external_body]
fn parses_as_redirect_url(s: &str) -> (r: bool)
    ensures
        r == redirect_url_accepts(s@),
{
    oauth2::RedirectUrl::new(s.to_string()).is_ok()
}

/// `oauth2::CsrfToken::new_random`: a fresh CSRF token from the thread's random
/// generator. Nothing is stated of its text.
#[verifier::external_body]
fn new_csrf_secret() -> String {
    oauth2::CsrfToken::new_random().secret().clone()
}

/// `BasicClient::authorize_url(..).add_scopes(..).url()` from `oauth2`, on a
/// client with this auth URL, client id and redirect URL and a CSRF token with
/// this text. The URLs were accepted when the client was built.
#[verifier::external_body]
fn oauth_authorize_url(auth_url: &str, client_id: &str, redirect_url: &str, csrf: &str, scopes: &Vec<String>) -> (r: String)
    requires
        auth_url_accepts(auth_url@),
        redirect_url_accepts(redirect_url@),
    ensures
        r@ == authorize_url_text(auth_url@, client_id@, redirect_url@, csrf@, scopes.deep_view()),
{
    let client = oauth2::basic::BasicClient::new(oauth2::ClientId::new(client_id.to_string()))
        .set_auth_uri(oauth2::AuthUrl::new(auth_url.to_string()).expect("accepted when the client was built"))
        .set_redirect_uri(oauth2::RedirectUrl::new(redirect_url.to_string()).expect("accepted when the client was built"));
    let (url, _) = client.authorize_url(|| oauth2::CsrfToken::new(csrf.to_string()))
        .add_scopes(scopes.iter().map(|s| oauth2::Scope::new(s.clone())))
        .url();
    url.to_string()
}

/// Google's authorization endpoint.
pub open spec fn google_auth_url() -> Seq<char> {
    "https://accounts.google.com/o/oauth2/v2/auth"@
}

/// Google's token endpoint.
pub open spec fn google_token_url() -> Seq<char> {
    "https://oauth2.googleapis.com/token"@
}

/// The scopes asked of Google.
pub open spec fn google_scopes() -> Seq<Seq<char>> {
    seq!["openid"@, "email"@, "profile"@]
}

/// The OAuth client for Google: credentials, endpoints and redirect URL, all
/// of them accepted by `oauth2`.
#[derive(Debug)]
pub struct GoogleOAuthClient {
    client_id: String,
    client_secret: String,
    auth_url: String,
    token_url: String,
    redirect_url: String,
}

impl GoogleOAuthClient {
    #[verifier::type_invariant]
    closed spec fn urls_accepted(&self) -> bool {
        &&& auth_url_accepts(self.auth_url@)
        &&& token_url_accepts(self.token_url@)
        &&& redirect_url_accepts(self.redirect_url@)
    }

    pub closed spec fn spec_client_id(&self) -> Seq<char> {
        self.client_id@
    }

    pub closed spec fn spec_client_secret(&self) -> Seq<char> {
        self.client_secret@
    }

    pub closed spec fn spec_auth_url(&self) -> Seq<char> {
        self.auth_url@
    }

    pub closed spec fn spec_token_url(&self) -> Seq<char> {
        self.token_url@
    }

    pub closed spec fn spec_redirect_url(&self) -> Seq<char> {
        self.redirect_url@
    }

    pub fn client_id(&self) -> (r: &str)
        ensures
            r@ == self.spec_client_id(),
    {
        self.client_id.as_str()
    }

    pub fn client_secret(&self) -> (r: &str)
        ensures
            r@ == self.spec_client_secret(),
    {
        self.client_secret.as_str()
    }

    pub fn auth_url(&self) -> (r: &str)
        ensures
            r@ == self.spec_auth_url(),
    {
        self.auth_url.as_str()
    }

    pub fn token_url(&self) -> (r: &str)
        ensures
            r@ == self.spec_token_url(),
    {
        self.token_url.as_str()
    }

    pub fn redirect_url(&self) -> (r: &str)
        ensures
            r@ == self.spec_redirect_url(),
    {
        self.redirect_url.as_str()
    }

    /// The URL that sends the user to Google to sign in, asking for the
    /// `openid`, `email` and `profile` scopes, with `csrf` as the state.
    pub fn authorize_url(&self, csrf: &str) -> (r: String)
        ensures
            r@ == authorize_url_text(self.spec_auth_url(), self.spec_client_id(), self.spec_redirect_url(), csrf@, google_scopes()),
    {
        proof {
            use_type_invariant(self);
        }
        let scopes: Vec<String> = vec!["openid".to_owned(), "email".to_owned(), "profile".to_owned()];
        assert(scopes.deep_view() =~= google_scopes());
        oauth_authorize_url(self.auth_url.as_str(), self.client_id.as_str(), self.redirect_url.as_str(), csrf, &scopes)
    }

    /// A fresh random CSRF token and the authorization URL that carries it.
    pub fn authorize_url_with_new_csrf(&self) -> (r: (String, String))
        ensures
            r.0@ == authorize_url_text(self.spec_auth_url(), self.spec_client_id(), self.spec_redirect_url(), r.1@, google_scopes()),
    {
        let csrf = new_csrf_secret();
        let url = self.authorize_url(csrf.as_str());
        (url, csrf)
    }
}

/// The client `build_oauth_client` makes, or `InvalidCredentials` when one of
/// the endpoint or redirect URLs does not parse.
pub fn build_oauth_client(client_id: String, client_secret: String, redirect_url: String) -> (r: Result<GoogleOAuthClient, ApiError>)
    ensures
        match r {
            Ok(c) => {
                &&& auth_url_accepts(google_auth_url())
                &&& token_url_accepts(google_token_url())
                &&& redirect_url_accepts(redirect_url@)
                &&& c.spec_client_id() == client_id@
                &&& c.spec_client_secret() == client_secret@
                &&& c.spec_auth_url() == google_auth_url()
                &&& c.spec_token_url() == google_token_url()
                &&& c.spec_redirect_url() == redirect_url@
            },
            Err(e) => e == ApiError::InvalidCredentials && !(auth_url_accepts(google_auth_url())
                && token_url_accepts(google_token_url()) && redirect_url_accepts(redirect_url@)),
        },
{
    let auth_url = "https://accounts.google.com/o/oauth2/v2/auth".to_owned();
    let token_url = "https://oauth2.googleapis.com/token".to_owned();
    if !parses_as_auth_url(auth_url.as_str()) {
        return Err(ApiError::InvalidCredentials);
    }
    if !parses_as_token_url(token_url.as_str()) {
        return Err(ApiError::InvalidCredentials);
    }
    if !parses_as_redirect_url(redirect_url.as_str()) {
        return Err(ApiError::InvalidCredentials);
    }
    Ok(GoogleOAuthClient { client_id, client_secret, auth_url, token_url, redirect_url })
}

} // verus!
