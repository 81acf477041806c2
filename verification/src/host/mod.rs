//! The host side of the shell: surfaces, plugin runtimes and permissions.
use vstd::prelude::*;

pub mod events;
pub mod executor;
pub mod plugins;
pub mod surface;

verus! {

/// Name of the host's own Tauri plugin.
pub const CORE_PLUGIN: &'static str = "litools-core";

/// Prefix of host permissions.
pub const CORE_PREFIX: &'static str = "litools-core:";

/// Prefix of SDK permissions.
pub const SDK_PREFIX: &'static str = "litools-sdk:";

/// Name of the SDK's Tauri plugin, which every plugin may call.
pub const SDK_PLUGIN: &'static str = "litools-sdk";

/// Prefix of the host plugin's IPC commands.
pub const CORE_CMD_PREFIX: &'static str = "plugin:litools-core|";

/// Prefix of the SDK plugin's IPC commands.
pub const SDK_CMD_PREFIX: &'static str = "plugin:litools-sdk|";

/// A window theme the settings can ask for.
#[derive(Clone, Copy, Debug, PartialEq, Eq, Structural)]
pub enum ThemeChoice {
    Dark,
    Light,
}

/// The theme windows get for the `theme` setting: `dark` and `light` as
/// named; any other value follows the system.
pub fn theme_choice(theme: &str) -> (r: Option<ThemeChoice>)
    ensures
        r == if theme@ == "dark"@ {
            Some(ThemeChoice::Dark)
        } else if theme@ == "light"@ {
            Some(ThemeChoice::Light)
        } else {
            None::<ThemeChoice>
        },
{
    if crate::text::str_eq(theme, "dark") {
        Some(ThemeChoice::Dark)
    } else if crate::text::str_eq(theme, "light") {
        Some(ThemeChoice::Light)
    } else {
        None
    }
}

} // verus!
