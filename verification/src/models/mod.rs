pub mod invoice;
pub mod oauth;
pub mod token;
pub mod user;
