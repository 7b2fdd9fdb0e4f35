pub mod auth;
pub mod extractor;
pub mod oauth;
