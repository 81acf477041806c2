//! What the background manager runs scripts with.
use vstd::prelude::*;

verus! {

/// An environment that runs plugin scripts, not bound to a webview.
pub trait PluginRuntime {
    /// Runs the script at `script_uri`.
    fn execute(&self, script_uri: &str) -> Result<(), String>;
}

} // verus!
