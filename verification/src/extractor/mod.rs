//! What a request handler takes from a request beyond its body.
pub mod auth;
pub mod flash;
