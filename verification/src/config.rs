//! Process-wide configuration: the signing secret and the token lifetime,
//! read once at startup and immutable afterwards, handed by reference into
//! every pipeline instance.

use vstd::prelude::*;

verus! {

/// What the pipeline needs from the environment: the shared signing secret
/// and how long an issued token lives, in whole seconds.
#[derive(Debug, Clone)]
pub struct Config {
    pub jwt_secret: Vec<u8>,
    pub jwt_ttl_seconds: u64,
}

impl Config {
    pub fn new(jwt_secret: Vec<u8>, jwt_ttl_seconds: u64) -> (r: Config)
        ensures
            r.jwt_secret == jwt_secret,
            r.jwt_ttl_seconds == jwt_ttl_seconds,
    {
        Config { jwt_secret, jwt_ttl_seconds }
    }
}

/// Everything a request handler shares: the configuration and the user-store
/// client the application chose.
#[derive(Debug, Clone)]
pub struct AppState<S> {
    pub env: Config,
    pub db_client: S,
}

} // verus!
