//! Window and webview labels.
use vstd::prelude::*;

verus! {

/// Label of the main launcher window.
pub const MAIN_WINDOW_LABEL: &'static str = "main";

/// Prefix of the labels of detached panel windows.
pub const DETACHED_PANEL_WINDOW_PREFIX: &'static str = "detached-";

/// Label of the webview that shows a surface: the surface id itself.
pub open spec fn surface_webview_label_spec(surface_id: Seq<char>) -> Seq<char> {
    surface_id
}

/// Label of the webview that shows a surface.
pub fn surface_webview_label(surface_id: &str) -> (label: String)
    ensures
        label@ == surface_webview_label_spec(surface_id@),
{
    surface_id.to_owned()
}

} // verus!
