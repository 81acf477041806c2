//! The decisions around plugin view runtimes: which installed command may
//! be launched and how, whether an existing runtime is reused, and the state
//! changes of entering, readiness and leaving, with the lifecycle events
//! they call for. Creating, moving and closing windows is left to the host.
use crate::host::plugins::runtime::model::{
    PluginRuntimeContext, PluginRuntimeInfo, PluginRuntimeLifecycle, RuntimeContextView,
};
use crate::host::plugins::runtime::registry::{
    register_outcome,
    law_removed_runtime_is_gone, registered_context, runtimes_wf, surface_pos,
    PluginRuntimeRegistration, RuntimeRegistryError,
    command_pos, focus_enter_transition, leave_transition, ready_transition, runtime_spec, stamped,
    updated, PluginRuntimeRegistry, RuntimeEntries,
};
use crate::host::surface::model::{SurfaceLifecycle, SurfaceMetadata};
use crate::host::surface::registry::{
    metadata_spec, removal_index, surface_id_spec, SurfaceEntries, SurfaceRegistry,
};
use crate::windowing::labels::{surface_webview_label_spec, MAIN_WINDOW_LABEL};
use crate::label_map::{has_key, inserted, key_pos, removed, value_of};
use crate::manifest::{InstalledPlugin, PluginCommand, PluginCommandMode, RuntimePolicy};
use crate::protocol::plugin::{entry_url_spec, resolve_entry_url};
use crate::text::{clone_strings, concat, owned, str_eq, views};
use crate::view::{ViewDefinition, WindowHostKind};
use crate::ids::is_uuid_v4_text;
use vstd::prelude::*;

verus! {

/// The first installed plugin with the id.
pub open spec fn find_plugin_spec(ps: Seq<InstalledPlugin>, id: Seq<char>) -> Option<InstalledPlugin>
    decreases ps.len(),
{
    if ps.len() == 0 {
        None
    } else if ps[0].manifest.id@ == id {
        Some(ps[0])
    } else {
        find_plugin_spec(ps.drop_first(), id)
    }
}

/// The first command with the id.
pub open spec fn find_command_spec(cs: Seq<PluginCommand>, id: Seq<char>) -> Option<PluginCommand>
    decreases cs.len(),
{
    if cs.len() == 0 {
        None
    } else if cs[0].id@ == id {
        Some(cs[0])
    } else {
        find_command_spec(cs.drop_first(), id)
    }
}

/// The installed plugin with the id.
pub fn find_plugin<'a>(plugins: &'a Vec<InstalledPlugin>, plugin_id: &str) -> (r: Option<
    &'a InstalledPlugin,
>)
    ensures
        match r {
            Some(p) => find_plugin_spec(plugins@, plugin_id@) == Some(*p),
            None => find_plugin_spec(plugins@, plugin_id@) is None,
        },
{
    let mut i: usize = 0;
    assert(plugins@.skip(0) =~= plugins@);
    while i < plugins.len()
        invariant
            i <= plugins@.len(),
            find_plugin_spec(plugins@, plugin_id@) == find_plugin_spec(plugins@.skip(i as int), plugin_id@),
        decreases plugins.len() - i,
    {
        assert(plugins@.skip(i as int)[0] == plugins@[i as int]);
        if str_eq(plugins[i].manifest.id.as_str(), plugin_id) {
            return Some(&plugins[i]);
        }
        assert(plugins@.skip(i as int).drop_first() =~= plugins@.skip(i + 1));
        i = i + 1;
    }
    None
}

fn find_command<'a>(commands: &'a Vec<PluginCommand>, command_id: &str) -> (r: Option<
    &'a PluginCommand,
>)
    ensures
        match r {
            Some(c) => find_command_spec(commands@, command_id@) == Some(*c),
            None => find_command_spec(commands@, command_id@) is None,
        },
{
    let mut i: usize = 0;
    assert(commands@.skip(0) =~= commands@);
    while i < commands.len()
        invariant
            i <= commands@.len(),
            find_command_spec(commands@, command_id@) == find_command_spec(
                commands@.skip(i as int),
                command_id@,
            ),
        decreases commands.len() - i,
    {
        assert(commands@.skip(i as int)[0] == commands@[i as int]);
        if str_eq(commands[i].id.as_str(), command_id) {
            return Some(&commands[i]);
        }
        assert(commands@.skip(i as int).drop_first() =~= commands@.skip(i + 1));
        i = i + 1;
    }
    None
}

/// An enabled plugin's command, with what launching it needs.
#[derive(Clone, Debug)]
pub struct EnabledPluginCommand {
    pub plugin_name: String,
    pub title: String,
    pub permissions: Vec<String>,
    pub policy: RuntimePolicy,
}

/// The plugin and its command, when both exist and the plugin is enabled;
/// else the message saying which does not hold.
pub open spec fn enabled_command_spec(
    ps: Seq<InstalledPlugin>,
    plugin_id: Seq<char>,
    command_id: Seq<char>,
) -> Result<(InstalledPlugin, PluginCommand), Seq<char>> {
    match find_plugin_spec(ps, plugin_id) {
        None => Err("plugin not found: "@ + plugin_id),
        Some(p) => if !p.enabled {
            Err("plugin is disabled: "@ + plugin_id)
        } else {
            match find_command_spec(p.manifest.commands@, command_id) {
                None => Err("plugin command not found: "@ + plugin_id + ":"@ + command_id),
                Some(c) => Ok((p, c)),
            }
        },
    }
}

fn not_found(plugin_id: &str, command_id: &str) -> (r: String)
    ensures
        r@ == "plugin command not found: "@ + plugin_id@ + ":"@ + command_id@,
{
    let a = concat("plugin command not found: ", plugin_id);
    let b = concat(a.as_str(), ":");
    concat(b.as_str(), command_id)
}

/// Looks up a plugin and one of its commands: the plugin's name, the
/// command's title, the declared permissions and the runtime policy.
pub fn find_enabled_plugin_command(
    plugins: &Vec<InstalledPlugin>,
    plugin_id: &str,
    command_id: &str,
) -> (r: Result<EnabledPluginCommand, String>)
    ensures
        match enabled_command_spec(plugins@, plugin_id@, command_id@) {
            Err(m) => r is Err && r->Err_0@ == m,
            Ok((p, c)) => r is Ok && {
                let e = r->Ok_0;
                &&& e.plugin_name@ == p.manifest.name@
                &&& e.title@ == c.title@
                &&& e.permissions@ == p.manifest.permissions@
                &&& e.policy == p.manifest.runtime_policy_spec()
            },
        },
{
    let plugin = match find_plugin(plugins, plugin_id) {
        Some(p) => p,
        None => {
            return Err(concat("plugin not found: ", plugin_id));
        },
    };
    if !plugin.enabled {
        return Err(concat("plugin is disabled: ", plugin_id));
    }
    let command = match find_command(&plugin.manifest.commands, command_id) {
        Some(c) => c,
        None => {
            return Err(not_found(plugin_id, command_id));
        },
    };
    Ok(
        EnabledPluginCommand {
            plugin_name: plugin.manifest.name.clone(),
            title: command.title.clone(),
            permissions: clone_strings(&plugin.manifest.permissions),
            policy: plugin.manifest.runtime_policy(),
        },
    )
}

/// What a new runtime for a view command is made from.
#[derive(Clone, Debug)]
pub struct RuntimeLaunchDescriptor {
    pub plugin_id: String,
    pub command_id: String,
    pub plugin_name: String,
    pub title: String,
    pub entry_url: String,
    pub permissions: Vec<String>,
    pub trusted: bool,
    pub policy: RuntimePolicy,
}

/// Everything a new runtime for a view command needs. Besides the checks of
/// `find_enabled_plugin_command`, the command must be a view command and
/// the plugin's entry URL must resolve.
pub fn runtime_launch_descriptor(
    plugins: &Vec<InstalledPlugin>,
    plugin_id: &str,
    command_id: &str,
) -> (r: Result<RuntimeLaunchDescriptor, String>)
    ensures
        match enabled_command_spec(plugins@, plugin_id@, command_id@) {
            Err(m) => r is Err && r->Err_0@ == m,
            Ok((p, c)) => if c.mode != PluginCommandMode::View {
                r is Err && r->Err_0@ == "plugin command is not a view command: "@ + plugin_id@
                    + ":"@ + command_id@
            } else {
                match entry_url_spec(p.manifest.id@, p.manifest) {
                    Err(m) => r is Err && r->Err_0@ == m,
                    Ok(u) => r is Ok && {
                        let d = r->Ok_0;
                        &&& d.plugin_id@ == p.manifest.id@
                        &&& d.command_id@ == c.id@
                        &&& d.plugin_name@ == p.manifest.name@
                        &&& d.title@ == c.title@
                        &&& d.entry_url@ == u
                        &&& d.permissions@ == p.manifest.permissions@
                        &&& d.trusted == p.trusted
                        &&& d.policy == p.manifest.runtime_policy_spec()
                    },
                }
            },
        },
{
    let plugin = match find_plugin(plugins, plugin_id) {
        Some(p) => p,
        None => {
            return Err(concat("plugin not found: ", plugin_id));
        },
    };
    if !plugin.enabled {
        return Err(concat("plugin is disabled: ", plugin_id));
    }
    let command = match find_command(&plugin.manifest.commands, command_id) {
        Some(c) => c,
        None => {
            return Err(not_found(plugin_id, command_id));
        },
    };
    if command.mode != PluginCommandMode::View {
        let a = concat("plugin command is not a view command: ", plugin_id);
        let b = concat(a.as_str(), ":");
        return Err(concat(b.as_str(), command_id));
    }
    let entry_url = resolve_entry_url(plugin.manifest.id.as_str(), &plugin.manifest)?;
    Ok(
        RuntimeLaunchDescriptor {
            plugin_id: plugin.manifest.id.clone(),
            command_id: command.id.clone(),
            plugin_name: plugin.manifest.name.clone(),
            title: command.title.clone(),
            entry_url,
            permissions: clone_strings(&plugin.manifest.permissions),
            trusted: plugin.trusted,
            policy: plugin.manifest.runtime_policy(),
        },
    )
}

// ── reuse of runtimes ───────────────────────────────────────

/// The runtime of the plugin command with the smallest id.
pub open spec fn command_runtime(rs: RuntimeEntries, plugin_id: Seq<char>, command_id: Seq<char>) -> Option<
    RuntimeContextView,
> {
    if command_pos(rs, plugin_id, command_id) < rs.len() {
        Some(rs[command_pos(rs, plugin_id, command_id) as int].1)
    } else {
        None
    }
}

/// The kind of window hosting the surface.
pub open spec fn host_kind_spec(ss: SurfaceEntries, surface_id: Seq<char>) -> Option<WindowHostKind> {
    match metadata_spec(ss, surface_id) {
        Some(m) => Some(m.host_kind),
        None => None,
    }
}

/// How to launch a command that already has a runtime.
#[derive(Clone, Debug)]
pub enum LaunchAction {
    /// Show the docked runtime again.
    EnsureVisible(PluginRuntimeContext),
    /// Bring the detached runtime's window to the front, where it is.
    FocusDetached(PluginRuntimeContext),
}

/// Whether launching a command reuses a runtime: only for a singleton
/// command that has a runtime on a known surface; a docked one is shown
/// again and a detached one focused. `None` means a new runtime is made.
pub fn resolve_launch_action(
    surfaces: &SurfaceRegistry,
    runtimes: &PluginRuntimeRegistry,
    plugin_id: &str,
    command_id: &str,
    policy: RuntimePolicy,
) -> (r: Option<LaunchAction>)
    requires
        surfaces.wf(),
        runtimes.wf(),
    ensures
        policy == RuntimePolicy::MultiInstance ==> r is None,
        policy == RuntimePolicy::Singleton ==> match command_runtime(
            runtimes.runtimes(),
            plugin_id@,
            command_id@,
        ) {
            None => r is None,
            Some(c) => match host_kind_spec(surfaces.surfaces(), c.surface_id) {
                None => r is None,
                Some(WindowHostKind::Main) => r matches Some(LaunchAction::EnsureVisible(x))
                    && x@ == c,
                Some(WindowHostKind::Detached) => r matches Some(LaunchAction::FocusDetached(x))
                    && x@ == c,
            },
        },
{
    match policy {
        RuntimePolicy::MultiInstance => None,
        RuntimePolicy::Singleton => {
            let context = runtimes.runtime_for_plugin_command(plugin_id, command_id)?;
            let metadata = surfaces.metadata(context.surface_id.as_str())?;
            match metadata.host_kind {
                WindowHostKind::Detached => Some(LaunchAction::FocusDetached(context)),
                WindowHostKind::Main => Some(LaunchAction::EnsureVisible(context)),
            }
        },
    }
}

/// What the runtime bridge reports of a runtime: its fields, and the kind
/// of window hosting its surface as `main` or `detached` when the surface
/// is known.
pub fn build_runtime_info(surfaces: &SurfaceRegistry, context: &PluginRuntimeContext) -> (r:
    PluginRuntimeInfo)
    requires
        surfaces.wf(),
    ensures
        r.runtime_id == context.id,
        r.plugin_id == context.plugin_id,
        r.command_id == context.command_id,
        r.plugin_name == context.plugin_name,
        r.title == context.title,
        r.surface_id == context.surface_id,
        r.lifecycle == context.lifecycle,
        r.permissions@ == context.permissions@,
        match host_kind_spec(surfaces.surfaces(), context.surface_id@) {
            None => r.host_kind is None,
            Some(WindowHostKind::Main) => r.host_kind is Some && r.host_kind->0@ == "main"@,
            Some(WindowHostKind::Detached) => r.host_kind is Some && r.host_kind->0@
                == "detached"@,
        },
{
    let host_kind = match surfaces.metadata(context.surface_id.as_str()) {
        None => None,
        Some(m) => match m.host_kind {
            WindowHostKind::Main => Some(owned("main")),
            WindowHostKind::Detached => Some(owned("detached")),
        },
    };
    PluginRuntimeInfo {
        runtime_id: context.id.clone(),
        plugin_id: context.plugin_id.clone(),
        command_id: context.command_id.clone(),
        plugin_name: context.plugin_name.clone(),
        title: context.title.clone(),
        surface_id: context.surface_id.clone(),
        host_kind,
        lifecycle: context.lifecycle,
        permissions: clone_strings(&context.permissions),
    }
}

// ── lifecycle steps ─────────────────────────────────────────

/// A runtime after a lifecycle step, and whether its view is to be told
/// (by the lifecycle event of the step).
#[derive(Clone, Debug)]
pub struct LifecycleStep {
    pub context: PluginRuntimeContext,
    pub notify: bool,
}

pub open spec fn step_context(r: Result<LifecycleStep, String>) -> Option<PluginRuntimeContext> {
    match r {
        Ok(s) => Some(s.context),
        Err(_) => None,
    }
}

fn runtime_not_found(runtime_id: &str) -> (r: String)
    ensures
        r@ == "plugin runtime not found: "@ + runtime_id@,
{
    concat("plugin runtime not found: ", runtime_id)
}

/// Focus enters the runtime. Its view is told it was entered when it was
/// not entered before and is now.
pub fn enter_runtime(runtimes: &mut PluginRuntimeRegistry, runtime_id: &str) -> (r: Result<
    LifecycleStep,
    String,
>)
    requires
        old(runtimes).wf(),
    ensures
        final(runtimes).wf(),
        final(runtimes).bridge() == old(runtimes).bridge(),
        updated(
            old(runtimes).runtimes(),
            final(runtimes).runtimes(),
            runtime_id@,
            |c: RuntimeContextView| focus_enter_transition(c),
            step_context(r),
        ),
        r matches Err(e) ==> e@ == "plugin runtime not found: "@ + runtime_id@,
        r matches Ok(s) ==> s.notify == (s.context.entered && !value_of(
            old(runtimes).runtimes(),
            runtime_id@,
        ).entered),
{
    let before = match runtimes.runtime(runtime_id) {
        Some(c) => c,
        None => {
            return Err(runtime_not_found(runtime_id));
        },
    };
    match runtimes.mark_focus_enter(runtime_id) {
        Some(context) => {
            let notify = context.entered && !before.entered;
            Ok(LifecycleStep { context, notify })
        },
        None => Err(runtime_not_found(runtime_id)),
    }
}

/// The runtime's view reports ready. It is told it was entered when focus
/// was waiting for readiness.
pub fn mark_runtime_ready(runtimes: &mut PluginRuntimeRegistry, runtime_id: &str) -> (r: Result<
    LifecycleStep,
    String,
>)
    requires
        old(runtimes).wf(),
    ensures
        final(runtimes).wf(),
        final(runtimes).bridge() == old(runtimes).bridge(),
        updated(
            old(runtimes).runtimes(),
            final(runtimes).runtimes(),
            runtime_id@,
            |c: RuntimeContextView| ready_transition(c),
            step_context(r),
        ),
        r matches Err(e) ==> e@ == "plugin runtime not found: "@ + runtime_id@,
        r matches Ok(s) ==> s.notify == (s.context.entered && !value_of(
            old(runtimes).runtimes(),
            runtime_id@,
        ).entered),
        r matches Ok(s) ==> (!value_of(old(runtimes).runtimes(), runtime_id@).pending_enter
            ==> !s.notify),
{
    let before = match runtimes.runtime(runtime_id) {
        Some(c) => c,
        None => {
            return Err(runtime_not_found(runtime_id));
        },
    };
    match runtimes.mark_ready(runtime_id) {
        Some(context) => {
            let notify = context.entered && !before.entered;
            Ok(LifecycleStep { context, notify })
        },
        None => Err(runtime_not_found(runtime_id)),
    }
}

/// Focus leaves the runtime. Its view is told it was left when it was
/// entered.
pub fn leave_runtime(runtimes: &mut PluginRuntimeRegistry, runtime_id: &str) -> (r: Result<
    LifecycleStep,
    String,
>)
    requires
        old(runtimes).wf(),
    ensures
        final(runtimes).wf(),
        final(runtimes).bridge() == old(runtimes).bridge(),
        updated(
            old(runtimes).runtimes(),
            final(runtimes).runtimes(),
            runtime_id@,
            |c: RuntimeContextView| leave_transition(c),
            step_context(r),
        ),
        r matches Err(e) ==> e@ == "plugin runtime not found: "@ + runtime_id@,
        r matches Ok(s) ==> s.notify == value_of(old(runtimes).runtimes(), runtime_id@).entered,
{
    let before = match runtimes.runtime(runtime_id) {
        Some(c) => c,
        None => {
            return Err(runtime_not_found(runtime_id));
        },
    };
    match runtimes.mark_leave(runtime_id) {
        Some(context) => Ok(LifecycleStep { context, notify: before.entered }),
        None => Err(runtime_not_found(runtime_id)),
    }
}

// ── docking and closing ─────────────────────────────────────

/// The registration of a docked runtime for the descriptor, shown on the
/// surface.
pub open spec fn docked_registration(
    d: RuntimeLaunchDescriptor,
    surface_id: String,
) -> PluginRuntimeRegistration {
    PluginRuntimeRegistration {
        plugin_id: d.plugin_id,
        command_id: d.command_id,
        plugin_name: d.plugin_name,
        title: d.title,
        entry_url: d.entry_url,
        surface_id,
        permissions: d.permissions,
        trusted: d.trusted,
        policy: d.policy,
    }
}

/// A new docked runtime: a surface for `view` is registered in the main
/// window, then a runtime is registered under a fresh random id (a version
/// 4 UUID) and bound to it, with exactly the outcome `register_runtime`
/// gives. When the runtime is refused the surface stays registered.
pub fn register_docked_runtime(
    surfaces: &mut SurfaceRegistry,
    runtimes: &mut PluginRuntimeRegistry,
    view: ViewDefinition,
    descriptor: RuntimeLaunchDescriptor,
) -> (r: Result<PluginRuntimeContext, RuntimeRegistryError>)
    requires
        old(surfaces).wf(),
        old(runtimes).wf(),
        old(surfaces).surface_counter() < u64::MAX,
    ensures
        final(surfaces).wf(),
        final(runtimes).wf(),
        final(surfaces).surface_counter() == old(surfaces).surface_counter() + 1,
        final(runtimes).bridge() == old(runtimes).bridge(),
        exists|m: SurfaceMetadata|
            {
                &&& m.id@ == surface_id_spec(old(surfaces).surface_counter())
                &&& m.webview_label@ == surface_webview_label_spec(m.id@)
                &&& m.view_id == view.id
                &&& m.provider == view.provider
                &&& m.route == view.route
                &&& m.title == view.title
                &&& m.host_window_label@ == MAIN_WINDOW_LABEL@
                &&& m.host_kind == WindowHostKind::Main
                &&& m.lifecycle == SurfaceLifecycle::Active
                &&& !m.focused
                &&& #[trigger] final(surfaces).surfaces() == inserted(
                    old(surfaces).surfaces(),
                    m.webview_label@,
                    m,
                )
                &&& exists|id: String|
                    #[trigger] is_uuid_v4_text(id@) && register_outcome(
                        old(runtimes).runtimes(),
                        docked_registration(descriptor, m.id),
                        id,
                        r,
                        final(runtimes).runtimes(),
                    )
            },
{
    let runtime_id = runtimes.next_runtime_id();
    let surface = surfaces.register_surface(view, owned(MAIN_WINDOW_LABEL), WindowHostKind::Main);
    let registration = PluginRuntimeRegistration {
        plugin_id: descriptor.plugin_id,
        command_id: descriptor.command_id,
        plugin_name: descriptor.plugin_name,
        title: descriptor.title,
        entry_url: descriptor.entry_url,
        surface_id: surface.id.clone(),
        permissions: descriptor.permissions,
        trusted: descriptor.trusted,
        policy: descriptor.policy,
    };
    let r = runtimes.register_runtime(registration, runtime_id);
    assert(final(surfaces).surfaces() == inserted(old(surfaces).surfaces(), surface.webview_label@, surface));
    r
}

/// The state changes that end a closed runtime: it is marked closed and
/// removed (with the search providers it registered), and its surface is
/// removed. A runtime that is not registered is left alone.
pub fn finish_close_runtime(
    surfaces: &mut SurfaceRegistry,
    runtimes: &mut PluginRuntimeRegistry,
    runtime_id: &str,
    surface_id: &str,
)
    requires
        old(surfaces).wf(),
        old(runtimes).wf(),
    ensures
        final(surfaces).wf(),
        final(runtimes).wf(),
        final(runtimes).runtimes() == removed(old(runtimes).runtimes(), runtime_id@),
        removal_index(old(surfaces).surfaces(), surface_id@) < old(surfaces).surfaces().len()
            ==> final(surfaces).surfaces() == old(surfaces).surfaces().remove(
            removal_index(old(surfaces).surfaces(), surface_id@),
        ),
        removal_index(old(surfaces).surfaces(), surface_id@) >= old(surfaces).surfaces().len()
            ==> final(surfaces).surfaces() == old(surfaces).surfaces(),
{
    if runtimes.runtime(runtime_id).is_some() {
        let ghost pre = runtimes.runtimes();
        let ghost p = key_pos(pre, runtime_id@);
        let _ = runtimes.mark_lifecycle(runtime_id, PluginRuntimeLifecycle::Closed);
        let ghost mid = runtimes.runtimes();
        proof {
            assert(mid[p].0 == runtime_id@);
            assert(has_key(mid, runtime_id@));
            crate::label_map::lemma_sorted_unique(mid, p, key_pos(mid, runtime_id@));
        }
        let _ = runtimes.remove(runtime_id);
        proof {
            assert(runtimes.runtimes() =~= pre.remove(p));
        }
    }
    let _ = surfaces.remove(surface_id);
}

// ── moving runtimes between windows ─────────────────────────

/// A runtime of a plugin command and the surface showing it.
pub open spec fn command_host(
    ss: SurfaceEntries,
    rs: RuntimeEntries,
    plugin_id: Seq<char>,
    command_id: Seq<char>,
) -> Result<(RuntimeContextView, SurfaceMetadata), Seq<char>> {
    match command_runtime(rs, plugin_id, command_id) {
        None => Err("plugin runtime not found: "@ + plugin_id + ":"@ + command_id),
        Some(c) => match metadata_spec(ss, c.surface_id) {
            None => Err("surface not found: "@ + c.surface_id),
            Some(m) => Ok((c, m)),
        },
    }
}

/// The runtime of a plugin command and the surface showing it.
pub fn runtime_host(
    surfaces: &SurfaceRegistry,
    runtimes: &PluginRuntimeRegistry,
    plugin_id: &str,
    command_id: &str,
) -> (r: Result<(PluginRuntimeContext, SurfaceMetadata), String>)
    requires
        surfaces.wf(),
        runtimes.wf(),
    ensures
        match command_host(surfaces.surfaces(), runtimes.runtimes(), plugin_id@, command_id@) {
            Err(e) => r is Err && r->Err_0@ == e,
            Ok((c, m)) => r is Ok && r->Ok_0.0@ == c && r->Ok_0.1 == m,
        },
{
    let context = match runtimes.runtime_for_plugin_command(plugin_id, command_id) {
        Some(c) => c,
        None => {
            let a = concat("plugin runtime not found: ", plugin_id);
            let b = concat(a.as_str(), ":");
            return Err(concat(b.as_str(), command_id));
        },
    };
    match surfaces.metadata(context.surface_id.as_str()) {
        Some(m) => Ok((context, m)),
        None => Err(concat("surface not found: ", context.surface_id.as_str())),
    }
}

/// What detaching a plugin view comes to.
#[derive(Clone, Debug)]
pub enum DetachPlan {
    /// It is detached already: bring its window to the front.
    FocusHost { context: PluginRuntimeContext, host_window_label: String },
    /// Move its webview into a window of its own.
    Reparent { context: PluginRuntimeContext, webview_label: String },
}

/// Detaching a plugin command's view: a detached one is only focused; a
/// docked one moves.
pub fn plan_detach_runtime(
    surfaces: &SurfaceRegistry,
    runtimes: &PluginRuntimeRegistry,
    plugin_id: &str,
    command_id: &str,
) -> (r: Result<DetachPlan, String>)
    requires
        surfaces.wf(),
        runtimes.wf(),
    ensures
        match command_host(surfaces.surfaces(), runtimes.runtimes(), plugin_id@, command_id@) {
            Err(e) => r is Err && r->Err_0@ == e,
            Ok((c, m)) => if m.host_kind == WindowHostKind::Detached {
                r matches Ok(DetachPlan::FocusHost { context, host_window_label }) && context@ == c
                    && host_window_label == m.host_window_label
            } else {
                r matches Ok(DetachPlan::Reparent { context, webview_label }) && context@ == c
                    && webview_label == m.webview_label
            },
        },
{
    let (context, m) = runtime_host(surfaces, runtimes, plugin_id, command_id)?;
    match m.host_kind {
        WindowHostKind::Detached => Ok(
            DetachPlan::FocusHost { context, host_window_label: m.host_window_label },
        ),
        WindowHostKind::Main => Ok(DetachPlan::Reparent { context, webview_label: m.webview_label }),
    }
}

/// Hiding a plugin command's docked view: the runtime, and the webview to
/// hide when it is docked (a detached view is left as it is).
pub fn plan_hide_docked_runtime(
    surfaces: &SurfaceRegistry,
    runtimes: &PluginRuntimeRegistry,
    plugin_id: &str,
    command_id: &str,
) -> (r: Result<(PluginRuntimeContext, Option<String>), String>)
    requires
        surfaces.wf(),
        runtimes.wf(),
    ensures
        match command_host(surfaces.surfaces(), runtimes.runtimes(), plugin_id@, command_id@) {
            Err(e) => r is Err && r->Err_0@ == e,
            Ok((c, m)) => r is Ok && r->Ok_0.0@ == c && if m.host_kind == WindowHostKind::Main {
                r->Ok_0.1 == Some(m.webview_label)
            } else {
                r->Ok_0.1 is None
            },
        },
{
    let (context, m) = runtime_host(surfaces, runtimes, plugin_id, command_id)?;
    match m.host_kind {
        WindowHostKind::Main => Ok((context, Some(m.webview_label))),
        WindowHostKind::Detached => Ok((context, None)),
    }
}

/// Records that a runtime's webview now lives in `host_window_label`, and
/// focus enters the runtime.
pub fn record_runtime_host(
    surfaces: &mut SurfaceRegistry,
    runtimes: &mut PluginRuntimeRegistry,
    webview_label: &str,
    host_window_label: String,
    host_kind: WindowHostKind,
    runtime_id: &str,
) -> (r: Result<LifecycleStep, String>)
    requires
        old(surfaces).wf(),
        old(runtimes).wf(),
    ensures
        final(surfaces).wf(),
        final(runtimes).wf(),
        !has_key(old(surfaces).surfaces(), webview_label@) ==> r is Err && r->Err_0@
            == "surface not found by webview: "@ + webview_label@ && final(surfaces).surfaces()
            == old(surfaces).surfaces() && final(runtimes).runtimes() == old(runtimes).runtimes(),
        has_key(old(surfaces).surfaces(), webview_label@) ==> {
            &&& final(surfaces).surfaces()[key_pos(old(surfaces).surfaces(), webview_label@)].1.host_window_label
                == host_window_label
            &&& final(surfaces).surfaces()[key_pos(old(surfaces).surfaces(), webview_label@)].1.host_kind
                == host_kind
            &&& updated(
                old(runtimes).runtimes(),
                final(runtimes).runtimes(),
                runtime_id@,
                |c: RuntimeContextView| focus_enter_transition(c),
                step_context(r),
            )
        },
{
    match surfaces.move_to_host(webview_label, host_window_label, host_kind) {
        None => Err(concat("surface not found by webview: ", webview_label)),
        Some(_) => enter_runtime(runtimes, runtime_id),
    }
}

/// Retitles a runtime; returns the window to retitle too when the runtime
/// is detached.
pub fn retitle_runtime(
    surfaces: &SurfaceRegistry,
    runtimes: &mut PluginRuntimeRegistry,
    runtime_id: &str,
    title: String,
) -> (r: Result<(PluginRuntimeContext, Option<String>), String>)
    requires
        surfaces.wf(),
        old(runtimes).wf(),
    ensures
        final(runtimes).wf(),
        !has_key(old(runtimes).runtimes(), runtime_id@) ==> r is Err && r->Err_0@
            == "plugin runtime not found: "@ + runtime_id@,
        has_key(old(runtimes).runtimes(), runtime_id@) ==> {
            let c = value_of(old(runtimes).runtimes(), runtime_id@);
            match metadata_spec(surfaces.surfaces(), c.surface_id) {
                None => r is Err && r->Err_0@ == "surface not found: "@ + c.surface_id,
                Some(m) => r is Ok && r->Ok_0.0.title@ == title@ && r->Ok_0.0.id@ == runtime_id@ && if m.host_kind
                    == WindowHostKind::Detached {
                    r->Ok_0.1 == Some(m.host_window_label)
                } else {
                    r->Ok_0.1 is None
                },
            }
        },
{
    let context = match runtimes.mark_title(runtime_id, title) {
        Some(c) => c,
        None => {
            return Err(runtime_not_found(runtime_id));
        },
    };
    let m = match surfaces.metadata(context.surface_id.as_str()) {
        Some(m) => m,
        None => {
            return Err(concat("surface not found: ", context.surface_id.as_str()));
        },
    };
    match m.host_kind {
        WindowHostKind::Detached => Ok((context, Some(m.host_window_label))),
        WindowHostKind::Main => Ok((context, None)),
    }
}

/// The runtime whose detached window is `window_label`, when a closed
/// window takes a runtime with it: the surface the label names must show a
/// runtime and be detached.
pub fn runtime_of_closed_window(
    surfaces: &SurfaceRegistry,
    runtimes: &PluginRuntimeRegistry,
    window_label: &str,
) -> (r: Option<PluginRuntimeContext>)
    requires
        surfaces.wf(),
        runtimes.wf(),
    ensures
        match metadata_spec(surfaces.surfaces(), window_label@) {
            None => r is None,
            Some(m) => if surface_pos(runtimes.runtimes(), m.id@) < runtimes.runtimes().len()
                && m.host_kind == WindowHostKind::Detached {
                r is Some && r->0@ == runtimes.runtimes()[surface_pos(
                    runtimes.runtimes(),
                    m.id@,
                ) as int].1
            } else {
                r is None
            },
        },
{
    let m = surfaces.metadata(window_label)?;
    let context = runtimes.runtime_for_surface_id(m.id.as_str())?;
    match m.host_kind {
        WindowHostKind::Detached => Some(context),
        WindowHostKind::Main => None,
    }
}

/// Once a runtime is closed it is found neither by its id nor by the
/// surface it was shown on.
pub proof fn law_closed_runtime_is_gone(rs: RuntimeEntries, runtime_id: Seq<char>)
    requires
        runtimes_wf(rs),
        has_key(rs, runtime_id),
    ensures
        runtimes_wf(removed(rs, runtime_id)),
        runtime_spec(removed(rs, runtime_id), runtime_id) is None,
        surface_pos(removed(rs, runtime_id), value_of(rs, runtime_id).surface_id) == removed(
            rs,
            runtime_id,
        ).len(),
{
    let i = key_pos(rs, runtime_id);
    assert(rs[i].1.id == runtime_id);
    law_removed_runtime_is_gone(rs, i);
}

} // verus!
