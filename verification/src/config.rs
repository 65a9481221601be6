//! Configuration handed to the authentication flow.
//!
//! The values are loaded from a file by the surrounding program and passed
//! in as an explicitly constructed object; nothing here is ambient.

use vstd::prelude::*;

use crate::crypto::{b64_standard_decode, b64_standard_decoded};
use crate::decimal::{dec_rep, u64_to_string};

verus! {

/// Command-line arguments: where the configuration file lives.
pub struct AppArgs {
    pub config_file: String,
}

impl AppArgs {
    pub fn new(config_file: String) -> (r: Self)
        ensures
            r.config_file == config_file,
    {
        Self { config_file }
    }
}

/// A configuration value that cannot be used.
#[derive(Clone, Copy, Debug, PartialEq, Eq, Structural)]
pub enum ConfigError {
    /// The session key is not a well-formed base64 string.
    InvalidSessionKey,
}

/// Application-wide secrets.
#[derive(Clone)]
pub struct AppConfig {
    /// The cookie-signing key, base64 encoded.
    pub session_key: String,
}

impl AppConfig {
    /// The decoded key bytes, or an error when the field is not base64.
    pub fn raw_session_key(&self) -> (r: Result<Vec<u8>, ConfigError>)
        ensures
            match r {
                Ok(v) => b64_standard_decoded(self.session_key@) == Some(v@),
                Err(e) => b64_standard_decoded(self.session_key@) is None && e
                    == ConfigError::InvalidSessionKey,
            },
    {
        match b64_standard_decode(self.session_key.as_str()) {
            Some(v) => Ok(v),
            None => Err(ConfigError::InvalidSessionKey),
        }
    }
}

/// Credentials registered with the identity provider.
#[derive(Clone)]
pub struct AuthConfig {
    pub client_id: String,
    pub client_secret: String,
}

/// Where the identity store lives.
#[derive(Clone)]
pub struct DatabaseConfig {
    pub host: String,
    pub port: u32,
    pub database: String,
    pub user: String,
    pub password: String,
}

/// The origin the browser frontend is served from.
#[derive(Clone)]
pub struct FrontendConfig {
    pub base_uri: String,
}

/// The address the server listens on.
#[derive(Clone)]
pub struct ServerConfig {
    pub bind: String,
    pub port: u32,
}

impl ServerConfig {
    /// The bind host and port joined as `host:port`.
    pub fn bind_address(&self) -> (r: String)
        ensures
            r@ == self.bind@ + ":"@ + dec_rep(self.port as nat),
    {
        let mut s = self.bind.clone();
        s.append(":");
        let p = u64_to_string(self.port as u64);
        s.append(p.as_str());
        proof {
            assert(s@ =~= self.bind@ + ":"@ + dec_rep(self.port as nat));
        }
        s
    }
}

/// Everything the server needs, explicitly constructed and passed around.
#[derive(Clone)]
pub struct ApplicationConfig {
    pub server: ServerConfig,
    pub app: AppConfig,
    pub auth: AuthConfig,
    pub database: DatabaseConfig,
    pub frontend: FrontendConfig,
}

} // verus!
