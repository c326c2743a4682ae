//! Signing guests in: the OAuth providers, their profiles and the session
//! token the service hands out.
pub mod error;
pub mod oauth;
pub mod profile;
pub mod token;
