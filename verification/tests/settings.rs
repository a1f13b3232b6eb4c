use desktop_constants::settings::{
    default_server_url_key, settings_store_id, wsl_enabled_key, DEFAULT_SERVER_URL_KEY,
    SETTINGS_STORE, WSL_ENABLED_KEY,
};

#[test]
fn names_have_their_exact_values() {
    assert_eq!(SETTINGS_STORE, "opencode.settings.dat");
    assert_eq!(DEFAULT_SERVER_URL_KEY, "defaultServerUrl");
    assert_eq!(WSL_ENABLED_KEY, "wslEnabled");
}

#[test]
fn accessors_return_the_constants() {
    assert_eq!(settings_store_id(), SETTINGS_STORE);
    assert_eq!(default_server_url_key(), DEFAULT_SERVER_URL_KEY);
    assert_eq!(wsl_enabled_key(), WSL_ENABLED_KEY);
}

#[test]
fn settings_store_id_is_the_same_at_every_call() {
    let first = settings_store_id();
    let second = settings_store_id();
    assert_eq!(first, second);
    assert_eq!(first, "opencode.settings.dat");
}

#[test]
fn keys_are_the_same_at_every_call() {
    assert_eq!(default_server_url_key(), default_server_url_key());
    assert_eq!(wsl_enabled_key(), wsl_enabled_key());
}

#[test]
fn names_are_not_empty() {
    assert!(!settings_store_id().is_empty());
    assert!(!default_server_url_key().is_empty());
    assert!(!wsl_enabled_key().is_empty());
    assert_eq!(settings_store_id().len(), 21);
    assert_eq!(default_server_url_key().len(), 16);
    assert_eq!(wsl_enabled_key().len(), 10);
}

#[test]
fn names_are_distinct() {
    assert_ne!(settings_store_id(), default_server_url_key());
    assert_ne!(settings_store_id(), wsl_enabled_key());
    assert_ne!(default_server_url_key(), wsl_enabled_key());
}
