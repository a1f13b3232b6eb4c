//! Names under which the desktop shell keeps its settings.
//!
//! The settings live in one persisted key-value store. The store and each entry
//! that the shell reads are found by a fixed name. The names never change while
//! the process runs, none of them is empty, and no two of them are alike.

use vstd::prelude::*;

verus! {

/// Name of the persisted store that holds the settings.
pub const SETTINGS_STORE: &'static str = "opencode.settings.dat";

/// Key of the entry that holds the address of the default server.
pub const DEFAULT_SERVER_URL_KEY: &'static str = "defaultServerUrl";

/// Key of the boolean entry that tells whether WSL is enabled.
pub const WSL_ENABLED_KEY: &'static str = "wslEnabled";

/// The name of the settings store: the same string at every call.
pub fn settings_store_id() -> (id: &'static str)
    ensures
        id@ == SETTINGS_STORE@,
{
    SETTINGS_STORE
}

/// The key of the default server's address: the same string at every call.
pub fn default_server_url_key() -> (key: &'static str)
    ensures
        key@ == DEFAULT_SERVER_URL_KEY@,
{
    DEFAULT_SERVER_URL_KEY
}

/// The key of the WSL switch: the same string at every call.
pub fn wsl_enabled_key() -> (key: &'static str)
    ensures
        key@ == WSL_ENABLED_KEY@,
{
    WSL_ENABLED_KEY
}

/// None of the three names is empty, and no two of them are equal: they
/// differ already in their lengths.
pub proof fn lemma_names_nonempty_and_distinct()
    ensures
        SETTINGS_STORE@.len() > 0,
        DEFAULT_SERVER_URL_KEY@.len() > 0,
        WSL_ENABLED_KEY@.len() > 0,
        SETTINGS_STORE@ != DEFAULT_SERVER_URL_KEY@,
        SETTINGS_STORE@ != WSL_ENABLED_KEY@,
        DEFAULT_SERVER_URL_KEY@ != WSL_ENABLED_KEY@,
{
    reveal_strlit("opencode.settings.dat");
    reveal_strlit("defaultServerUrl");
    reveal_strlit("wslEnabled");
}

} // verus!
