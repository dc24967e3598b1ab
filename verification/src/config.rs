//! Service configuration.

use std::path::PathBuf;
use vstd::prelude::*;

verus! {

#[verifier::external_type_specification]
#[verifier::external_body]
pub struct ExPathBuf(PathBuf);

/// `<PathBuf as Clone>::clone` from std, which the keystore configuration's
/// `Clone` calls; nothing is claimed of the copy.
pub assume_specification[ <PathBuf as Clone>::clone ](path: &PathBuf) -> PathBuf;

/// Configuration of the client keystore.
#[derive(Clone)]
pub enum KeystoreConfig {
    /// Keystore at a path on-disk. Recommended for native nodes.
    Path {
        /// The path of the keystore.
        path: PathBuf,
        /// Node keystore's password.
        password: Option<String>,
    },
    /// In-memory keystore. Recommended for in-browser nodes.
    InMemory,
}

impl KeystoreConfig {
    /// Returns the path for the keystore.
    pub fn path(&self) -> (r: Option<&PathBuf>)
        ensures
            match self {
                KeystoreConfig::Path { path, .. } => r == Some(path),
                KeystoreConfig::InMemory => r is None,
            },
    {
        match self {
            KeystoreConfig::Path { path, .. } => Some(path),
            KeystoreConfig::InMemory => None,
        }
    }
}

/// Configuration of the database of the client.
#[derive(Clone)]
pub enum DatabaseConfig {
    /// Database file at a specific path. Recommended for most uses.
    Path {
        /// Path to the database.
        path: PathBuf,
        /// Cache Size for internal database in MiB
        cache_size: Option<usize>,
    },
}

/// Service configuration: the settings that are plain values.
pub struct Configuration {
    /// Implementation name
    pub impl_name: String,
    /// Implementation version
    pub impl_version: String,
    /// Node roles, as the network layer displays them.
    pub roles: String,
    /// Configuration for the keystore.
    pub keystore: KeystoreConfig,
    /// Configuration for the database.
    pub database: DatabaseConfig,
    /// Size of internal state cache in Bytes
    pub state_cache_size: usize,
    /// Size in percent of cache size dedicated to child tries
    pub state_cache_child_ratio: Option<usize>,
    /// Maximum number of connections for WebSockets RPC server. `None` if default.
    pub rpc_ws_max_connections: Option<usize>,
    /// CORS settings for HTTP & WS servers. `None` if all origins are allowed.
    pub rpc_cors: Option<Vec<String>>,
    /// The default number of 64KB pages to allocate for Wasm execution
    pub default_heap_pages: Option<u64>,
    /// Should offchain workers be executed.
    pub offchain_worker: bool,
    /// Sentry mode is enabled, the node's role is AUTHORITY but it should not
    /// actively participate in consensus (i.e. no keystores should be passed to
    /// consensus modules).
    pub sentry_mode: bool,
    /// Enable authoring even when offline.
    pub force_authoring: bool,
    /// Disable GRANDPA when running in validator mode
    pub disable_grandpa: bool,
    /// Development key seed.
    ///
    /// When running in development mode, the seed will be used to generate authority keys by the keystore.
    ///
    /// Should only be set when `node` is running development mode.
    pub dev_key_seed: Option<String>,
    /// Tracing targets
    pub tracing_targets: Option<String>,
}

impl Configuration {
    /// Returns a string displaying the node role, special casing the sentry mode
    /// (returning `SENTRY`), since the node technically has an `AUTHORITY` role but
    /// doesn't participate.
    pub fn display_role(&self) -> (r: String)
        ensures
            r@ == (if self.sentry_mode {
                "SENTRY"@
            } else {
                self.roles@
            }),
    {
        broadcast use vstd::string::group_string_axioms;

        if self.sentry_mode {
            "SENTRY".to_string()
        } else {
            self.roles.clone()
        }
    }
}

} // verus!
