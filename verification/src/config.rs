//! The server's configuration.
use vstd::prelude::*;

use crate::decimal::{parse_u16, parse_u16_spec};

verus! {

/// The port served when none is configured.
pub const DEFAULT_PORT: u16 = 3000;

/// How long a cached profile lives, in seconds (one hour).
pub const REDIS_CACHE_TTL: usize = 60 * 60;

/// The session lifetime in seconds (four months of thirty days): how long a
/// token stays valid and its cookies live.
pub const JWT_MAX_AGE: i64 = 60 * 60 * 24 * 30 * 4;

/// The settings the server runs with.
#[derive(Debug, Clone)]
pub struct AppConfig {
    pub port: u16,
    pub client_origin: String,
    pub jwt_secret: String,
    pub reids_cache_ttl: usize,
    pub jwt_max_age: i64,
    pub google_oauth_client_id: String,
    pub google_oauth_client_secret: String,
    pub google_oauth_redirect_url: String,
}

/// The port configured by the value of `PORT`, if it is set.
pub open spec fn configured_port(port: Option<Seq<char>>) -> u16 {
    match port {
        None => DEFAULT_PORT,
        Some(p) => parse_u16_spec(p)->Some_0,
    }
}

impl AppConfig {
    /// The configuration from the values of the environment variables `PORT`
    /// (if set), `CLIENT_ORIGIN`, `JWT_SECRET`, `GOOGLE_OAUTH_CLIENT_ID`,
    /// `GOOGLE_OAUTH_CLIENT_SECRET` and `GOOGLE_OAUTH_REDIRECT_URL`.
    pub fn init(
        port: Option<&str>,
        client_origin: String,
        jwt_secret: String,
        google_oauth_client_id: String,
        google_oauth_client_secret: String,
        google_oauth_redirect_url: String,
    ) -> (config: AppConfig)
        requires
            port matches Some(p) ==> parse_u16_spec(p@) is Some,
        ensures
            config.port == configured_port(
                match port {
                    Some(p) => Some(p@),
                    None => None,
                },
            ),
            config.client_origin == client_origin,
            config.jwt_secret == jwt_secret,
            config.reids_cache_ttl == REDIS_CACHE_TTL,
            config.jwt_max_age == JWT_MAX_AGE,
            config.google_oauth_client_id == google_oauth_client_id,
            config.google_oauth_client_secret == google_oauth_client_secret,
            config.google_oauth_redirect_url == google_oauth_redirect_url,
    {
        let port = match port {
            Some(p) => match parse_u16(p) {
                Some(n) => n,
                None => DEFAULT_PORT,
            },
            None => DEFAULT_PORT,
        };
        AppConfig {
            port,
            client_origin,
            jwt_secret,
            reids_cache_ttl: REDIS_CACHE_TTL,
            jwt_max_age: JWT_MAX_AGE,
            google_oauth_client_id,
            google_oauth_client_secret,
            google_oauth_redirect_url,
        }
    }
}

} // verus!
