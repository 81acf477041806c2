//! Plugin runtime, surface and permission logic of the litools desktop shell.
pub mod app_watcher;
pub mod background;
pub mod clock;
pub mod host;
pub mod ids;
pub mod index_refresh;
pub mod label_map;
pub mod manifest;
pub mod plugin_protocol;
pub mod plugin_runtime;
pub mod protocol;
pub mod shortcut;
pub mod state;
pub mod surface;
pub mod text;
pub mod view;
pub mod windowing;
