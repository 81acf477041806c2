//! The parts of a plugin manifest and of an installed plugin that the shell
//! reads.
use vstd::prelude::*;

verus! {

/// How many runtimes a plugin command may have at once.
#[derive(Clone, Copy, Debug, PartialEq, Eq, Structural)]
pub enum RuntimePolicy {
    Singleton,
    MultiInstance,
}

/// How a plugin command is launched.
#[derive(Clone, Copy, Debug, PartialEq, Eq, Structural)]
pub enum PluginCommandMode {
    View,
    Instant,
    SearchProvider,
}

/// A mode's name in summaries and stored commands.
pub open spec fn mode_name(m: PluginCommandMode) -> Seq<char> {
    match m {
        PluginCommandMode::View => "view"@,
        PluginCommandMode::Instant => "instant"@,
        PluginCommandMode::SearchProvider => "searchProvider"@,
    }
}

impl PluginCommandMode {
    /// The mode's name.
    pub fn as_str(&self) -> (s: &'static str)
        ensures
            s@ == mode_name(*self),
    {
        match self {
            PluginCommandMode::View => "view",
            PluginCommandMode::Instant => "instant",
            PluginCommandMode::SearchProvider => "searchProvider",
        }
    }
}

/// A dev-server configuration.
#[derive(Clone, Debug)]
pub struct PluginDevelopment {
    pub main: String,
}

/// One command a plugin declares.
#[derive(Clone, Debug)]
pub struct PluginCommand {
    pub id: String,
    pub title: String,
    pub subtitle: Option<String>,
    pub keywords: Vec<String>,
    pub mode: PluginCommandMode,
}

/// A plugin manifest (`plugin.json`).
#[derive(Clone, Debug)]
pub struct PluginManifest {
    pub id: String,
    pub name: String,
    pub version: String,
    pub entry: Option<String>,
    pub description: Option<String>,
    pub author: Option<String>,
    pub icon: String,
    pub commands: Vec<PluginCommand>,
    pub singleton: bool,
    pub permissions: Vec<String>,
    pub development: Option<PluginDevelopment>,
}

impl PluginManifest {
    /// The runtime policy the manifest asks for.
    pub open spec fn runtime_policy_spec(&self) -> RuntimePolicy {
        if self.singleton {
            RuntimePolicy::Singleton
        } else {
            RuntimePolicy::MultiInstance
        }
    }

    /// The runtime policy the manifest asks for: one runtime per command
    /// when `singleton` is set, any number otherwise.
    pub fn runtime_policy(&self) -> (p: RuntimePolicy)
        ensures
            p == self.runtime_policy_spec(),
    {
        if self.singleton {
            RuntimePolicy::Singleton
        } else {
            RuntimePolicy::MultiInstance
        }
    }
}

/// An installed plugin: its manifest and its state.
#[derive(Clone, Debug)]
pub struct InstalledPlugin {
    pub manifest: PluginManifest,
    pub enabled: bool,
    pub trusted: bool,
    pub source: String,
    pub path: String,
}

} // verus!
