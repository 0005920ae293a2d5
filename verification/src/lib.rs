use vstd::prelude::*;

pub mod auth;
pub mod credential_store;
pub mod errors;
mod ids;
pub mod laws;
pub mod middleware;
pub mod models;
mod password;
pub mod strings;
pub mod token;
pub mod user_store;

verus! {

/// Server-wide configuration, constructed once at startup and passed
/// explicitly to the components that need it.
pub struct Config {
    pub database_url: String,
    pub jwt_secret: String,
    pub port: u16,
}

} // verus!
