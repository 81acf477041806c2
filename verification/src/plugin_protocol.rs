//! The plugin asset scheme under its first module path.
pub use crate::protocol::percent_decode;
pub use crate::protocol::plugin::{
    content_type_for_path, plugin_asset_url, plugin_entry_url, PluginProtocol,
    PLUGIN_PROTOCOL_SCHEME,
};
