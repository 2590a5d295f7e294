//! The part of the process configuration that startup reads.

use vstd::prelude::*;
use crate::secret::Secret;

verus! {

/// How the listener is secured.
#[derive(Clone, Copy, Debug, PartialEq, Eq, Structural)]
pub enum TlsConfig {
    /// Serve plaintext.
    NoTls,
    /// Terminate TLS with a certificate generated at process start.
    SelfSigned,
}

/// Where the relational store lives. The credentials are not part of it:
/// startup reads it only to name the store in a failure.
#[derive(Debug, PartialEq, Eq)]
pub struct DatabaseSetting {
    pub host: String,
    pub port: u16,
    pub database_name: String,
}

/// Where the identity provider lives.
pub struct GoTrueSetting {
    pub base_url: String,
}

/// Where the listener binds and how it is secured.
pub struct ApplicationSetting {
    pub host: String,
    pub port: u16,
    pub tls_config: Option<TlsConfig>,
}

/// The configuration of one process. It is read, never changed.
pub struct Config {
    pub application: ApplicationSetting,
    pub database: DatabaseSetting,
    pub gotrue: GoTrueSetting,
    /// The address of the session store. It holds credentials.
    pub redis_uri: Secret,
}

impl Config {
    /// True when the configuration asks for a TLS-terminating listener.
    pub open spec fn wants_tls(&self) -> bool {
        self.application.tls_config == Some(TlsConfig::SelfSigned)
    }
}

impl Clone for DatabaseSetting {
    fn clone(&self) -> (r: DatabaseSetting)
        ensures
            r == *self,
    {
        DatabaseSetting {
            host: self.host.clone(),
            port: self.port,
            database_name: self.database_name.clone(),
        }
    }
}

impl Clone for Config {
    fn clone(&self) -> (r: Config)
        ensures
            r == *self,
    {
        Config {
            application: ApplicationSetting {
                host: self.application.host.clone(),
                port: self.application.port,
                tls_config: self.application.tls_config,
            },
            database: self.database.clone(),
            gotrue: GoTrueSetting { base_url: self.gotrue.base_url.clone() },
            redis_uri: self.redis_uri.clone(),
        }
    }
}

} // verus!
