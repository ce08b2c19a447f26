//! Application-wide settings.
use crate::models::GlobalConfig;
use vstd::prelude::*;

verus! {

/// The theme of a fresh installation.
pub open spec fn default_theme() -> Seq<char> {
    "dark"@
}

/// What reading the settings comes to.
#[derive(Debug, Clone, PartialEq, Eq)]
pub struct LoadedConfig {
    /// The settings in force.
    pub config: GlobalConfig,
    /// Whether the settings did not exist yet and are to be written.
    pub persist: bool,
}

/// The settings in force, given what is stored: the stored settings, or the
/// defaults where nothing is stored yet.  Defaults are to be persisted.
pub fn get_config(stored: Option<GlobalConfig>) -> (loaded: LoadedConfig)
    ensures
        loaded.persist == (stored is None),
        loaded.config.theme@ == match stored {
            Some(c) => c.theme@,
            None => default_theme(),
        },
{
    match stored {
        Some(config) => LoadedConfig { config, persist: false },
        None => LoadedConfig {
            config: GlobalConfig { theme: "dark".to_string() },
            persist: true,
        },
    }
}

/// The name of the event that announces a new theme.
pub fn theme_changed_event() -> (name: String)
    ensures
        name@ == "theme-changed"@,
{
    "theme-changed".to_string()
}

/// The settings to persist when the theme becomes `theme`.  `stored` holds
/// the settings read from disk, if there were any and they could be read.
pub fn set_theme(stored: Option<GlobalConfig>, theme: String) -> (config: GlobalConfig)
    ensures
        config.theme@ == theme@,
{
    match stored {
        Some(mut config) => {
            config.theme = theme;
            config
        },
        None => GlobalConfig { theme },
    }
}

} // verus!
