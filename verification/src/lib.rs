//! Bridge library for a remote thermostat vendor's cloud API.
//!
//! The library owns the session/polling orchestration: it builds the
//! authentication, token-refresh and device-poll requests, decodes the
//! vendor's responses, normalizes raw device readings into the unit system
//! the consumer expects, and keeps the last-known device snapshot so that
//! status queries are answered from cache. The surrounding binary performs
//! the actual HTTP exchanges and hands the raw bytes back in.

use vstd::prelude::*;

pub mod codec;
pub mod ecobee;
pub mod errors;
pub mod query;
pub mod response;
pub mod units;
pub mod wire;

verus! {

/// Configuration handed in by the surrounding binary: the registered client
/// identifier and the account credentials used for the initial
/// authentication.
pub struct Config {
    pub client_id: String,
    pub username: String,
    pub password: String,
}

/// The access/refresh token pair used to authorize calls to the vendor API.
///
/// Once obtained, a credential is never mutated in place: refreshing yields
/// a new `Credential` that atomically replaces the old one.
#[derive(Clone, Debug)]
pub struct Credential {
    pub access_token: String,
    pub refresh_token: String,
}

} // verus!
