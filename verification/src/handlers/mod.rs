pub mod auth;
pub mod invoice;
pub mod oauth;
