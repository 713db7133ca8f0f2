use zeitgeist_service::config::{Configuration, Role, WasmExecutionMethod};
use zeitgeist_service::error::ServiceError;
use zeitgeist_service::keystore::{hook_up_remote_keystore, remote_keystore};

fn config(keystore_remote: Option<&str>) -> Configuration {
    Configuration {
        database_path: None,
        keystore_remote: keystore_remote.map(|url| url.to_string()),
        telemetry_endpoints: None,
        wasm_method: WasmExecutionMethod::Interpreted,
        default_heap_pages: None,
        max_runtime_instances: 8,
        runtime_cache_size: 2,
        offchain_worker_enabled: false,
        role: Role::Full,
        force_authoring: false,
        node_name: "node".to_string(),
        disable_grandpa: false,
        prometheus_enabled: false,
    }
}

#[test]
fn no_remote_keystore_can_be_reached() {
    assert_eq!(remote_keystore(&"http://keys".to_string()), Err("Remote Keystore not supported."));
}

#[test]
fn nothing_to_hook_up() {
    assert_eq!(hook_up_remote_keystore::<()>(&config(None)), Ok(()));
}

#[test]
fn hooking_up_names_the_url() {
    assert_eq!(
        hook_up_remote_keystore::<()>(&config(Some("http://keys"))),
        Err(ServiceError::Other(
            "Error hooking up remote keystore for http://keys: Remote Keystore not supported."
                .to_string()
        ))
    );
}

#[test]
fn only_authorities_are_authorities() {
    assert!(Role::Authority.is_authority());
    assert!(!Role::Full.is_authority());
}
