//! Verified core of an invoicing backend: sessions with signed access
//! tokens and rotating refresh tokens, Google sign-in, invoice ownership
//! and the mapping of errors to HTTP answers.
pub mod text;
pub mod clock;
pub mod ids;
pub mod error;
pub mod services;
pub mod models;
pub mod handlers;
pub mod config;
pub mod cookies;
pub mod response;
pub mod middleware;
pub mod laws;
