//! View definitions: which view a surface shows and where it may be hosted.
use vstd::prelude::*;

verus! {

/// The kind of window hosting a surface.
#[derive(Clone, Copy, Debug, PartialEq, Eq, Structural)]
pub enum WindowHostKind {
    Main,
    Detached,
}

/// The kind of view shown by a surface.
#[derive(Clone, Copy, Debug, PartialEq, Eq, Structural)]
pub enum ViewKind {
    Launcher,
    Settings,
    Plugin,
}

/// Who provides a view: the host itself or a plugin.
#[derive(Clone, Debug)]
pub enum ViewProvider {
    Core,
    Plugin { plugin_id: String },
}

impl ViewProvider {
    /// A copy equal to `self`.
    pub fn duplicate(&self) -> (r: Self)
        ensures
            r == *self,
    {
        match self {
            ViewProvider::Core => ViewProvider::Core,
            ViewProvider::Plugin { plugin_id } => ViewProvider::Plugin { plugin_id: plugin_id.clone() },
        }
    }
}

/// A routable view.
#[derive(Clone, Debug)]
pub struct ViewDefinition {
    pub id: String,
    pub provider: ViewProvider,
    pub kind: ViewKind,
    pub route: String,
    pub title: String,
    pub default_host: WindowHostKind,
    pub allowed_hosts: Vec<WindowHostKind>,
    pub detachable: bool,
}

} // verus!
