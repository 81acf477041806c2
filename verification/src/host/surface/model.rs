//! Surface metadata: one webview showing one view inside a host window.
use vstd::prelude::*;

use crate::view::{ViewProvider, WindowHostKind};

verus! {

#[derive(Clone, Copy, Debug, PartialEq, Eq, Structural)]
pub enum SurfaceLifecycle {
    Active,
    Hidden,
    Destroyed,
}

#[derive(Clone, Debug)]
pub struct SurfaceMetadata {
    pub id: String,
    pub webview_label: String,
    pub view_id: String,
    pub provider: ViewProvider,
    pub route: String,
    pub title: String,
    pub host_window_label: String,
    pub host_kind: WindowHostKind,
    pub lifecycle: SurfaceLifecycle,
    pub focused: bool,
    pub created_at: String,
    pub updated_at: String,
}

impl View for SurfaceMetadata {
    type V = SurfaceMetadata;

    open spec fn view(&self) -> SurfaceMetadata {
        *self
    }
}

impl SurfaceMetadata {
    /// A copy equal to `self`.
    pub fn duplicate(&self) -> (r: Self)
        ensures
            r == *self,
    {
        SurfaceMetadata {
            id: self.id.clone(),
            webview_label: self.webview_label.clone(),
            view_id: self.view_id.clone(),
            provider: self.provider.duplicate(),
            route: self.route.clone(),
            title: self.title.clone(),
            host_window_label: self.host_window_label.clone(),
            host_kind: self.host_kind,
            lifecycle: self.lifecycle,
            focused: self.focused,
            created_at: self.created_at.clone(),
            updated_at: self.updated_at.clone(),
        }
    }
}

} // verus!
