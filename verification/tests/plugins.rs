use litools_desktop::host::plugins::runtime::service::{
    plan_detach_runtime, plan_hide_docked_runtime, record_runtime_host, retitle_runtime,
    runtime_of_closed_window, DetachPlan,
};
use litools_desktop::host::plugins::commands::manifest_command_records;
use litools_desktop::host::plugins::runtime::pending::{
    parse_request_id, request_id_text, submission_target, PendingRequests, RequestId,
};
use litools_desktop::host::plugins::runtime::registry::{
    PluginRuntimeRegistration, PluginRuntimeRegistry,
};
use litools_desktop::host::plugins::runtime::search_bridge::WebviewSearchBridge;
use litools_desktop::host::plugins::runtime::service::{
    build_runtime_info, find_enabled_plugin_command, register_docked_runtime,
    resolve_launch_action, runtime_launch_descriptor, LaunchAction,
};
use litools_desktop::host::plugins::summary::{
    plugin_summary, plugin_view_descriptor, uninstall_target,
};
use litools_desktop::host::surface::registry::SurfaceRegistry;
use litools_desktop::host::{theme_choice, ThemeChoice};
use litools_desktop::manifest::{
    InstalledPlugin, PluginCommand, PluginCommandMode, PluginDevelopment, PluginManifest,
    RuntimePolicy,
};
use litools_desktop::view::{ViewDefinition, ViewKind, ViewProvider, WindowHostKind};

fn command(id: &str, mode: PluginCommandMode) -> PluginCommand {
    PluginCommand {
        id: id.to_string(),
        title: format!("Title {id}"),
        subtitle: Some("sub".to_string()),
        keywords: vec!["kw".to_string()],
        mode,
    }
}

fn plugin(id: &str, enabled: bool, singleton: bool) -> InstalledPlugin {
    InstalledPlugin {
        manifest: PluginManifest {
            id: id.to_string(),
            name: format!("Plugin {id}"),
            version: "1.0.0".to_string(),
            entry: Some("dist/index.html".to_string()),
            description: None,
            author: Some("me".to_string()),
            icon: "icon.svg".to_string(),
            commands: vec![command("open", PluginCommandMode::View), command("run", PluginCommandMode::Instant)],
            singleton,
            permissions: vec!["litools-sdk:allow-ui".to_string()],
            development: None,
        },
        enabled,
        trusted: false,
        source: "user".to_string(),
        path: format!("/plugins/{id}"),
    }
}

#[test]
fn enabled_commands_are_found() {
    let plugins = vec![plugin("a", true, true), plugin("b", false, false)];
    let found = find_enabled_plugin_command(&plugins, "a", "open").unwrap();
    assert_eq!(found.plugin_name, "Plugin a");
    assert_eq!(found.title, "Title open");
    assert_eq!(found.policy, RuntimePolicy::Singleton);
    assert_eq!(find_enabled_plugin_command(&plugins, "z", "open").unwrap_err(), "plugin not found: z");
    assert_eq!(find_enabled_plugin_command(&plugins, "b", "open").unwrap_err(), "plugin is disabled: b");
    assert_eq!(find_enabled_plugin_command(&plugins, "a", "x").unwrap_err(), "plugin command not found: a:x");
}

#[test]
fn only_view_commands_get_runtimes() {
    let plugins = vec![plugin("a", true, false)];
    let d = runtime_launch_descriptor(&plugins, "a", "open").unwrap();
    assert_eq!(d.entry_url, "litools-plugin://a/dist/index.html");
    assert_eq!(d.policy, RuntimePolicy::MultiInstance);
    assert_eq!(
        runtime_launch_descriptor(&plugins, "a", "run").unwrap_err(),
        "plugin command is not a view command: a:run"
    );
    let mut dev = plugin("d", true, true);
    dev.manifest.development = Some(PluginDevelopment { main: "http://localhost:5173".to_string() });
    assert_eq!(runtime_launch_descriptor(&vec![dev], "d", "open").unwrap().entry_url, "http://localhost:5173");
}

#[test]
fn summaries_and_view_descriptors() {
    let p = plugin("a", true, true);
    let s = plugin_summary(&p);
    assert_eq!(s.icon, "litools-plugin://a/icon.svg");
    assert_eq!(s.commands.len(), 2);
    assert_eq!(s.commands[0].mode, "view");
    assert_eq!(s.commands[1].mode, "instant");
    assert_eq!(s.path, "/plugins/a");
    let plugins = vec![p];
    let d = plugin_view_descriptor(&plugins, "a".to_string(), "open".to_string()).unwrap();
    assert_eq!(d.entry_url, "litools-plugin://a/dist/index.html");
    assert_eq!(d.icon, "litools-plugin://a/icon.svg");
    assert!(!d.dev);
    assert_eq!(uninstall_target(&plugins, "a"), Ok("/plugins/a".to_string()));
    assert_eq!(uninstall_target(&plugins, "q"), Err("插件不存在: q".to_string()));
}

#[test]
fn installing_records_manifest_commands() {
    let p = plugin("a", true, true);
    let records = manifest_command_records(&p.manifest, &vec!["a:open".to_string(), "a:run".to_string()]);
    assert_eq!(records.len(), 2);
    assert_eq!(records[0].id, "a:open");
    assert_eq!(records[1].mode, "instant");
    assert_eq!(records[0].source, "manifest");
    assert_eq!(records[0].permission_requirements, vec!["litools-sdk:allow-ui".to_string()]);
}

fn plugin_view() -> ViewDefinition {
    ViewDefinition {
        id: "plugin".to_string(),
        provider: ViewProvider::Plugin { plugin_id: "a".to_string() },
        kind: ViewKind::Plugin,
        route: "/plugin/a/open".to_string(),
        title: "Title open".to_string(),
        default_host: WindowHostKind::Main,
        allowed_hosts: vec![WindowHostKind::Main, WindowHostKind::Detached],
        detachable: true,
    }
}

#[test]
fn singleton_commands_reuse_their_runtime() {
    let plugins = vec![plugin("a", true, true)];
    let mut surfaces = SurfaceRegistry::default();
    let mut runtimes = PluginRuntimeRegistry::new(WebviewSearchBridge::new());
    assert!(resolve_launch_action(&surfaces, &runtimes, "a", "open", RuntimePolicy::Singleton).is_none());
    let d = runtime_launch_descriptor(&plugins, "a", "open").unwrap();
    let ctx = register_docked_runtime(&mut surfaces, &mut runtimes, plugin_view(), d).unwrap();
    assert_eq!(ctx.surface_id, "surface_000001");
    let info = build_runtime_info(&surfaces, &ctx);
    assert_eq!(info.host_kind, Some("main".to_string()));
    match resolve_launch_action(&surfaces, &runtimes, "a", "open", RuntimePolicy::Singleton) {
        Some(LaunchAction::EnsureVisible(c)) => assert_eq!(c, ctx),
        other => panic!("unexpected {other:?}"),
    }
    assert!(resolve_launch_action(&surfaces, &runtimes, "a", "open", RuntimePolicy::MultiInstance).is_none());
    let label = surfaces.metadata(&ctx.surface_id).unwrap().webview_label;
    surfaces.move_to_host(&label, "detached-panel_000001".to_string(), WindowHostKind::Detached);
    match resolve_launch_action(&surfaces, &runtimes, "a", "open", RuntimePolicy::Singleton) {
        Some(LaunchAction::FocusDetached(c)) => assert_eq!(c.id, ctx.id),
        other => panic!("unexpected {other:?}"),
    }
    let d = runtime_launch_descriptor(&plugins, "a", "open").unwrap();
    assert!(register_docked_runtime(&mut surfaces, &mut runtimes, plugin_view(), d).is_err());
    let _ = PluginRuntimeRegistration {
        plugin_id: String::new(),
        command_id: String::new(),
        plugin_name: String::new(),
        title: String::new(),
        entry_url: String::new(),
        surface_id: String::new(),
        permissions: vec![],
        trusted: false,
        policy: RuntimePolicy::Singleton,
    };
}

#[test]
fn requests_are_answered_once_by_their_runtime() {
    let mut pending: PendingRequests<&str> = PendingRequests::new();
    let a = pending.register_with_nonce("prov", 1, "r1".to_string(), "reply-a");
    let b = pending.register_with_nonce("prov", 2, "r2".to_string(), "reply-b");
    assert_eq!(pending.complete(&a, "r1"), Some("reply-a"));
    assert_eq!(pending.complete(&a, "r1"), None);
    assert_eq!(pending.complete(&b, "r1"), None);
    assert_eq!(pending.complete(&b, "r2"), None);
    let c = pending.register_pending("det", "r3".to_string(), "reply-c");
    let d = pending.register_with_nonce("other", 9, "r3".to_string(), "reply-d");
    pending.cancel_runtime("r3");
    assert_eq!(pending.complete(&c, "r3"), None);
    assert_eq!(pending.complete(&d, "r3"), None);
    let e = pending.register_with_nonce("det", 5, "r4".to_string(), "reply-e");
    pending.cancel_key("det");
    assert_eq!(pending.complete(&e, "r4"), None);
    let f = pending.register_with_nonce("x", 6, "r5".to_string(), "reply-f");
    pending.cancel(&f);
    assert_eq!(pending.complete(&f, "r5"), None);
}

#[test]
fn each_request_gets_its_own_reply_back() {
    let mut pending: PendingRequests<&str> = PendingRequests::new();
    let a = pending.register_with_nonce("prov", 1, "r1".to_string(), "reply-a");
    let b = pending.register_with_nonce("prov", 2, "r1".to_string(), "reply-b");
    let c = pending.register_with_nonce("det", 3, "r2".to_string(), "reply-c");
    pending.cancel_key("det");
    assert_eq!(pending.complete(&b, "r1"), Some("reply-b"));
    assert_eq!(pending.complete(&a, "r1"), Some("reply-a"));
    assert_eq!(pending.complete(&c, "r2"), None);
}

#[test]
fn request_ids_read_back_from_their_text() {
    let id = RequestId { key: "dev.plugin.files".to_string(), nonce: 0x1234_5678_9abc_def0_1234_5678_9abc_def0 };
    let text = request_id_text(&id);
    assert_eq!(text, "dev.plugin.files.12345678-9abc-def0-1234-56789abcdef0");
    assert_eq!(parse_request_id(&text), Some(id));
    assert_eq!(parse_request_id("no-dot"), None);
    assert_eq!(parse_request_id("a.not-a-uuid"), None);
    let registry = PluginRuntimeRegistry::new(WebviewSearchBridge::new());
    assert_eq!(submission_target(&registry, "w", &text), None);
}

#[test]
fn themes_follow_the_setting() {
    assert_eq!(theme_choice("dark"), Some(ThemeChoice::Dark));
    assert_eq!(theme_choice("light"), Some(ThemeChoice::Light));
    assert_eq!(theme_choice("system"), None);
}

#[test]
fn detaching_and_hiding_depend_on_where_the_view_is() {
    let plugins = vec![plugin("a", true, true)];
    let mut surfaces = SurfaceRegistry::default();
    let mut runtimes = PluginRuntimeRegistry::new(WebviewSearchBridge::new());
    assert_eq!(
        plan_detach_runtime(&surfaces, &runtimes, "a", "open").unwrap_err(),
        "plugin runtime not found: a:open"
    );
    let d = runtime_launch_descriptor(&plugins, "a", "open").unwrap();
    let ctx = register_docked_runtime(&mut surfaces, &mut runtimes, plugin_view(), d).unwrap();
    let label = match plan_detach_runtime(&surfaces, &runtimes, "a", "open").unwrap() {
        DetachPlan::Reparent { webview_label, .. } => webview_label,
        other => panic!("unexpected {other:?}"),
    };
    let (_, hide) = plan_hide_docked_runtime(&surfaces, &runtimes, "a", "open").unwrap();
    assert_eq!(hide, Some(label.clone()));
    let (_, window) = retitle_runtime(&surfaces, &mut runtimes, &ctx.id, "New".to_string()).unwrap();
    assert_eq!(window, None);
    assert!(runtime_of_closed_window(&surfaces, &runtimes, "detached-panel_000001").is_none());
    let step = record_runtime_host(
        &mut surfaces,
        &mut runtimes,
        &label,
        "detached-panel_000001".to_string(),
        WindowHostKind::Detached,
        &ctx.id,
    )
    .unwrap();
    assert!(step.context.pending_enter);
    match plan_detach_runtime(&surfaces, &runtimes, "a", "open").unwrap() {
        DetachPlan::FocusHost { host_window_label, .. } => assert_eq!(host_window_label, "detached-panel_000001"),
        other => panic!("unexpected {other:?}"),
    }
    let (_, hide) = plan_hide_docked_runtime(&surfaces, &runtimes, "a", "open").unwrap();
    assert_eq!(hide, None);
    let (c, window) = retitle_runtime(&surfaces, &mut runtimes, &ctx.id, "Newer".to_string()).unwrap();
    assert_eq!(c.title, "Newer");
    assert_eq!(window, Some("detached-panel_000001".to_string()));
    assert_eq!(runtime_of_closed_window(&surfaces, &runtimes, "detached-panel_000001").unwrap().id, ctx.id);
    assert!(record_runtime_host(&mut surfaces, &mut runtimes, "nope", "main".to_string(), WindowHostKind::Main, &ctx.id).is_err());
}
