use std::path::PathBuf;
use storage_lock::config::{Configuration, DatabaseConfig, KeystoreConfig};

fn config(sentry_mode: bool) -> Configuration {
    Configuration {
        impl_name: "parity-substrate".to_string(),
        impl_version: "0.0.0".to_string(),
        roles: "AUTHORITY".to_string(),
        keystore: KeystoreConfig::InMemory,
        database: DatabaseConfig::Path { path: PathBuf::from("/tmp/db"), cache_size: Some(128) },
        state_cache_size: 0,
        state_cache_child_ratio: None,
        rpc_ws_max_connections: None,
        rpc_cors: Some(vec![]),
        default_heap_pages: None,
        offchain_worker: false,
        sentry_mode,
        force_authoring: false,
        disable_grandpa: false,
        dev_key_seed: None,
        tracing_targets: None,
    }
}

#[test]
fn keystore_path() {
    let on_disk = KeystoreConfig::Path { path: PathBuf::from("/tmp/keystore"), password: None };
    assert_eq!(on_disk.path(), Some(&PathBuf::from("/tmp/keystore")));
    assert_eq!(on_disk.clone().path(), Some(&PathBuf::from("/tmp/keystore")));
    assert_eq!(KeystoreConfig::InMemory.path(), None);
}

#[test]
fn display_role_special_cases_sentry_mode() {
    assert_eq!(config(true).display_role(), "SENTRY");
    assert_eq!(config(false).display_role(), "AUTHORITY");
}

#[test]
fn database_config_holds_its_path() {
    let config = config(false);
    match config.database.clone() {
        DatabaseConfig::Path { path, cache_size } => {
            assert_eq!(path, PathBuf::from("/tmp/db"));
            assert_eq!(cache_size, Some(128));
        },
    }
}
