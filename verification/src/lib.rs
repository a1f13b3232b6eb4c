//! Process-wide configuration of the desktop shell: the names under which its
//! settings are stored, whether a build may update itself, and which
//! attributes of a window are saved and restored.

pub mod settings;
pub mod updater;
pub mod window_state;

pub use settings::{
    default_server_url_key, settings_store_id, wsl_enabled_key, DEFAULT_SERVER_URL_KEY,
    SETTINGS_STORE, WSL_ENABLED_KEY,
};
pub use updater::is_updater_enabled;
pub use window_state::{window_state_flags, StateFlags};
