//! The settings of the service.

use vstd::prelude::*;

verus! {

#[derive(Clone, Debug, PartialEq, Eq)]
pub struct Config {
    pub port: u16,
    pub jwt_secret: String,
    pub token_expiration_minutes: u64,
    pub database_url: String,
    pub cors_origins: Vec<String>,
    pub frontend_url: String,
}

impl Config {
    /// The lifetime of an access token in seconds, as the responses report
    /// it.
    pub open spec fn expires_in(&self) -> int {
        self.token_expiration_minutes * 60
    }
}

} // verus!
