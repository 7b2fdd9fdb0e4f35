//! What Google sends back during sign-in.
use vstd::prelude::*;

verus! {

/// The profile from Google's userinfo endpoint.
#[derive(Debug, Clone, PartialEq, Eq)]
pub struct GoogleUserProfile {
    /// Google's own id of the user.
    pub sub: String,
    pub email: String,
    pub name: String,
    /// First name.
    pub given_name: String,
    /// Last name.
    pub family_name: String,
    pub picture: Option<String>,
    pub email_verified: bool,
}

/// Query parameters of the redirect back from Google.
#[derive(Debug, Clone, PartialEq, Eq)]
pub struct GoogleCallbackParams {
    /// Authorization code, exchanged for a token.
    pub code: String,
    /// The CSRF token handed out when sign-in began.
    pub state: String,
}

} // verus!
