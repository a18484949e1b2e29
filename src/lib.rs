//! Authentication middleware core: path classification, the per-request
//! authentication token, a TOTP second factor and the request state machine
//! that composes primary authentication with an optional second factor.

pub mod path_matcher;
pub mod token;
pub mod error;
pub mod google_auth;
pub mod session;
pub mod middleware;
pub mod laws;
