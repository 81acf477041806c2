//! The method table of the first bridge generation, and the grouping of
//! host commands by who may call them.
use crate::text::str_eq;
use vstd::prelude::*;

verus! {

/// What calling a runtime method needs.
#[derive(Clone, Copy, Debug, Eq, PartialEq)]
pub enum RuntimePermissionRequirement {
    /// Every runtime may call it.
    Intrinsic,
    /// The runtime's plugin must declare this permission.
    Permission(&'static str),
}

/// What a method needs, by name: `None` for a method the bridge does not
/// know.
pub open spec fn requirement_spec(method: Seq<char>) -> Option<Option<Seq<char>>> {
    if method == "runtime.ready"@ || method == "runtime.getInfo"@ || method
        == "permissions.query"@ {
        Some(None)
    } else if method == "ui.close"@ || method == "ui.setTitle"@ {
        Some(Some("ui:window"@))
    } else if method == "ui.toast"@ {
        Some(Some("ui:toast"@))
    } else if method == "storage.get"@ || method == "storage.set"@ || method == "storage.remove"@
        || method == "storage.clear"@ {
        Some(Some("storage:plugin"@))
    } else if method == "settings.get"@ {
        Some(Some("settings:read"@))
    } else if method == "settings.update"@ {
        Some(Some("settings:write"@))
    } else if method == "diagnostics.get"@ {
        Some(Some("diagnostics:read"@))
    } else if method == "plugins.list"@ {
        Some(Some("plugins:list"@))
    } else {
        None
    }
}

/// The requirement as the table gives it: intrinsic, or a permission.
pub open spec fn requirement_view(r: RuntimePermissionRequirement) -> Option<Seq<char>> {
    match r {
        RuntimePermissionRequirement::Intrinsic => None,
        RuntimePermissionRequirement::Permission(p) => Some(p@),
    }
}

/// What calling `method` needs.
pub fn required_permission_for_method(method: &str) -> (r: Option<RuntimePermissionRequirement>)
    ensures
        match r {
            Some(q) => requirement_spec(method@) == Some(requirement_view(q)),
            None => requirement_spec(method@) is None,
        },
{
    if str_eq(method, "runtime.ready") || str_eq(method, "runtime.getInfo") || str_eq(
        method,
        "permissions.query",
    ) {
        Some(RuntimePermissionRequirement::Intrinsic)
    } else if str_eq(method, "ui.close") || str_eq(method, "ui.setTitle") {
        Some(RuntimePermissionRequirement::Permission("ui:window"))
    } else if str_eq(method, "ui.toast") {
        Some(RuntimePermissionRequirement::Permission("ui:toast"))
    } else if str_eq(method, "storage.get") || str_eq(method, "storage.set") || str_eq(
        method,
        "storage.remove",
    ) || str_eq(method, "storage.clear") {
        Some(RuntimePermissionRequirement::Permission("storage:plugin"))
    } else if str_eq(method, "settings.get") {
        Some(RuntimePermissionRequirement::Permission("settings:read"))
    } else if str_eq(method, "settings.update") {
        Some(RuntimePermissionRequirement::Permission("settings:write"))
    } else if str_eq(method, "diagnostics.get") {
        Some(RuntimePermissionRequirement::Permission("diagnostics:read"))
    } else if str_eq(method, "plugins.list") {
        Some(RuntimePermissionRequirement::Permission("plugins:list"))
    } else {
        None
    }
}

/// Who may call a command.
#[derive(Clone, Copy, Debug, Eq, PartialEq, Structural)]
pub enum CommandCategory {
    /// The launcher's control surface: the main window only.
    Host,
    /// Trusted plugins only.
    Internal,
    /// Plugins that declare it.
    Sdk,
}

/// The launcher's own commands.
pub open spec fn is_host_command(m: Seq<char>) -> bool {
    ||| m == "search"@
    ||| m == "launcher_panel"@
    ||| m == "pin_result"@
    ||| m == "unpin_result"@
    ||| m == "reorder_pinned_results"@
    ||| m == "execute_result"@
    ||| m == "hide_main_window"@
    ||| m == "show_main_window"@
    ||| m == "focus_main_window"@
    ||| m == "resize_main_window_height"@
    ||| m == "start_window_dragging"@
    ||| m == "hide_window"@
    ||| m == "focus_window"@
    ||| m == "destroy_window"@
    ||| m == "list_windows"@
    ||| m == "get_current_window_metadata"@
    ||| m == "detach_route"@
    ||| m == "update_surface_route"@
    ||| m == "reveal_in_file_manager"@
    ||| m == "reload_index"@
    ||| m == "get_diagnostics"@
    ||| m == "get_settings"@
    ||| m == "update_settings"@
    ||| m == "list_plugins"@
    ||| m == "get_plugin_view_descriptor"@
    ||| m == "open_plugin_view"@
    ||| m == "hide_plugin_view"@
    ||| m == "detach_plugin_view"@
    ||| m == "close_plugin_view"@
    ||| m == "close_plugin_view_by_id"@
    ||| m == "get_plugin_view_info"@
    ||| m == "open_plugin_devtools"@
}

/// The category of a command, by name: the launcher's own commands are
/// host commands, three methods are internal, everything else is SDK.
pub open spec fn category_spec(m: Seq<char>) -> CommandCategory {
    if is_host_command(m) {
        CommandCategory::Host
    } else if m == "plugins.list"@ || m == "diagnostics.get"@ || m == "settings.update"@ {
        CommandCategory::Internal
    } else {
        CommandCategory::Sdk
    }
}

const HOST_COMMANDS: [&'static str; 32] = [
    "search",
    "launcher_panel",
    "pin_result",
    "unpin_result",
    "reorder_pinned_results",
    "execute_result",
    "hide_main_window",
    "show_main_window",
    "focus_main_window",
    "resize_main_window_height",
    "start_window_dragging",
    "hide_window",
    "focus_window",
    "destroy_window",
    "list_windows",
    "get_current_window_metadata",
    "detach_route",
    "update_surface_route",
    "reveal_in_file_manager",
    "reload_index",
    "get_diagnostics",
    "get_settings",
    "update_settings",
    "list_plugins",
    "get_plugin_view_descriptor",
    "open_plugin_view",
    "hide_plugin_view",
    "detach_plugin_view",
    "close_plugin_view",
    "close_plugin_view_by_id",
    "get_plugin_view_info",
    "open_plugin_devtools",
];

/// The category of the command named `method`.
pub fn categorize_method(method: &str) -> (c: CommandCategory)
    ensures
        c == category_spec(method@),
{
    let mut i: usize = 0;
    while i < 32
        invariant
            i <= 32,
            forall|j: int| 0 <= j < i ==> method@ != HOST_COMMANDS@[j]@,
        decreases 32 - i,
    {
        if str_eq(method, HOST_COMMANDS[i]) {
            assert(is_host_command(method@)) by {
                assert(HOST_COMMANDS@[i as int]@ == method@);
            }
            return CommandCategory::Host;
        }
        i = i + 1;
    }
    assert(!is_host_command(method@)) by {
        assert(forall|j: int| 0 <= j < 32 ==> method@ != HOST_COMMANDS@[j]@);
    }
    if str_eq(method, "plugins.list") || str_eq(method, "diagnostics.get") || str_eq(
        method,
        "settings.update",
    ) {
        CommandCategory::Internal
    } else {
        CommandCategory::Sdk
    }
}

} // verus!
