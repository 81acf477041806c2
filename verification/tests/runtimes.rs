use litools_desktop::host::plugins::commands::{
    command_registrar, merge_command_update, plan_add_commands, plan_replace_commands,
    CommandRecord, CommandSpec,
};
use litools_desktop::host::plugins::dispatch::{
    plan_view_call, CallParams, ParamValue, ViewCallAction,
};
use litools_desktop::host::plugins::runtime::model::{
    PermissionQueryState, PluginRuntimeErrorCode, PluginRuntimeLifecycle,
};
use litools_desktop::host::plugins::runtime::registry::{
    PluginRuntimeRegistration, PluginRuntimeRegistry, RuntimeRegistryError,
};
use litools_desktop::host::plugins::runtime::search_bridge::{
    RegisteredSearchProvider, WebviewSearchBridge,
};
use litools_desktop::host::plugins::runtime::service::{
    enter_runtime, finish_close_runtime, leave_runtime, mark_runtime_ready,
};
use litools_desktop::host::surface::registry::SurfaceRegistry;
use litools_desktop::manifest::RuntimePolicy;

fn registration() -> PluginRuntimeRegistration {
    PluginRuntimeRegistration {
        plugin_id: "dev.litools.test".to_string(),
        command_id: "hello".to_string(),
        plugin_name: "Test".to_string(),
        title: "Hello".to_string(),
        entry_url: "litools-plugin://dev.litools.test/dist/index.html".to_string(),
        surface_id: "plugin-a1b2c3d4-e5f6-7890-abcd-ef1111111111".to_string(),
        permissions: vec!["ui:window".to_string()],
        trusted: false,
        policy: RuntimePolicy::Singleton,
    }
}

fn test_registry() -> PluginRuntimeRegistry {
    PluginRuntimeRegistry::new(WebviewSearchBridge::new())
}

fn multi_registration() -> PluginRuntimeRegistration {
    let mut reg = registration();
    reg.surface_id = "plugin-b2c3d4e5-f6a7-8901-bcde-f22222222222".to_string();
    reg.policy = RuntimePolicy::MultiInstance;
    reg
}

#[test]
fn registry_registers_and_finds_runtime() {
    let mut registry = test_registry();
    let context = registry
        .register_runtime(registration(), "550e8400-e29b-41d4-a716-446655440001".to_string())
        .expect("runtime registered");

    assert_eq!(context.lifecycle, PluginRuntimeLifecycle::Created);
    assert_eq!(context.policy, RuntimePolicy::Singleton);
    assert_eq!(
        registry.runtime_for_surface_id("plugin-a1b2c3d4-e5f6-7890-abcd-ef1111111111"),
        Some(context.clone())
    );
    assert_eq!(registry.runtime_for_plugin_command("dev.litools.test", "hello"), Some(context));
}

#[test]
fn registry_rejects_duplicate_singleton_runtime() {
    let mut registry = test_registry();
    registry
        .register_runtime(registration(), "550e8400-e29b-41d4-a716-446655440001".to_string())
        .expect("runtime registered");

    let mut reg2 = registration();
    reg2.surface_id = "plugin-c3d4e5f6-a7b8-9012-cdef-333333333333".to_string();
    assert!(registry
        .register_runtime(reg2, "550e8400-e29b-41d4-a716-446655440002".to_string())
        .is_err());
}

#[test]
fn registry_allows_multi_instance_runtimes() {
    let mut registry = test_registry();
    registry
        .register_runtime(multi_registration(), "550e8400-e29b-41d4-a716-446655440001".to_string())
        .expect("first runtime registered");

    let mut reg2 = multi_registration();
    reg2.surface_id = "plugin-d4e5f6a7-b8c9-0123-def4-444444444444".to_string();
    let second = registry
        .register_runtime(reg2, "550e8400-e29b-41d4-a716-446655440002".to_string())
        .expect("second runtime registered");

    assert_eq!(second.policy, RuntimePolicy::MultiInstance);
    let all = registry.runtimes_for_plugin_command("dev.litools.test", "hello");
    assert_eq!(all.len(), 2);
}

#[test]
fn registry_transitions_lifecycle() {
    let mut registry = test_registry();
    registry
        .register_runtime(registration(), "550e8400-e29b-41d4-a716-446655440001".to_string())
        .expect("runtime registered");

    let context = registry
        .mark_focus_enter("550e8400-e29b-41d4-a716-446655440001")
        .expect("runtime updated");
    assert_eq!(context.lifecycle, PluginRuntimeLifecycle::Created);
    assert!(context.pending_enter);
    assert!(!context.entered);

    let context = registry
        .mark_ready("550e8400-e29b-41d4-a716-446655440001")
        .expect("runtime ready");
    assert_eq!(context.lifecycle, PluginRuntimeLifecycle::Active);
    assert!(!context.pending_enter);
    assert!(context.entered);
}

#[test]
fn registry_removes_runtime_indexes() {
    let mut registry = test_registry();
    registry
        .register_runtime(registration(), "550e8400-e29b-41d4-a716-446655440001".to_string())
        .expect("runtime registered");

    assert!(registry.remove("550e8400-e29b-41d4-a716-446655440001").is_some());
    assert!(registry.runtime("550e8400-e29b-41d4-a716-446655440001").is_none());
    assert!(registry
        .runtime_for_surface_id("plugin-a1b2c3d4-e5f6-7890-abcd-ef1111111111")
        .is_none());
}

#[test]
fn registration_errors_name_their_cause() {
    let mut registry = test_registry();
    registry.register_runtime(registration(), "r1".to_string()).unwrap();
    match registry.register_runtime(multi_registration(), "r1".to_string()) {
        Err(RuntimeRegistryError::RuntimeExists(id)) => assert_eq!(id, "r1"),
        other => panic!("unexpected {other:?}"),
    }
    let mut same_surface = multi_registration();
    same_surface.surface_id = registration().surface_id;
    match registry.register_runtime(same_surface, "r2".to_string()) {
        Err(RuntimeRegistryError::SurfaceBound(s)) => assert_eq!(s, registration().surface_id),
        other => panic!("unexpected {other:?}"),
    }
    let mut other_surface = registration();
    other_surface.surface_id = "s9".to_string();
    match registry.register_runtime(other_surface, "r3".to_string()) {
        Err(RuntimeRegistryError::SingletonExists(ids)) => assert_eq!(ids, vec!["r1".to_string()]),
        other => panic!("unexpected {other:?}"),
    }
}

#[test]
fn removing_a_runtime_drops_its_search_providers() {
    let mut registry = test_registry();
    registry.register_runtime(registration(), "r1".to_string()).unwrap();
    registry.search_bridge_mut().register_provider(RegisteredSearchProvider {
        plugin_id: "dev.litools.test".to_string(),
        runtime_id: "r1".to_string(),
        provider_id: "dev.litools.test.files".to_string(),
        webview_label: "plugin-a1b2c3d4-e5f6-7890-abcd-ef1111111111".to_string(),
        registered_at: "now".to_string(),
    });
    registry.remove("r1");
    assert!(registry.search_bridge_mut().unregister_provider("dev.litools.test.files").is_none());
}

#[test]
fn lifecycle_steps_say_when_views_are_told() {
    let mut registry = test_registry();
    registry.register_runtime(registration(), "r1".to_string()).unwrap();
    let step = enter_runtime(&mut registry, "r1").unwrap();
    assert!(step.context.pending_enter);
    assert!(!step.notify);
    let step = mark_runtime_ready(&mut registry, "r1").unwrap();
    assert!(step.context.entered);
    assert!(step.notify);
    let step = enter_runtime(&mut registry, "r1").unwrap();
    assert!(!step.notify);
    let step = leave_runtime(&mut registry, "r1").unwrap();
    assert!(step.notify);
    assert_eq!(step.context.lifecycle, PluginRuntimeLifecycle::Ready);
    assert!(!leave_runtime(&mut registry, "r1").unwrap().notify);
    assert_eq!(
        enter_runtime(&mut registry, "nope").unwrap_err(),
        "plugin runtime not found: nope"
    );
}

#[test]
fn closing_a_runtime_removes_it_and_its_surface() {
    let mut registry = test_registry();
    let mut surfaces = SurfaceRegistry::default();
    let view = litools_desktop::view::ViewDefinition {
        id: "plugin".to_string(),
        provider: litools_desktop::view::ViewProvider::Core,
        kind: litools_desktop::view::ViewKind::Plugin,
        route: "/plugin".to_string(),
        title: "Hello".to_string(),
        default_host: litools_desktop::view::WindowHostKind::Main,
        allowed_hosts: vec![litools_desktop::view::WindowHostKind::Main],
        detachable: true,
    };
    let surface = surfaces.register_surface(view, "main".to_string(), litools_desktop::view::WindowHostKind::Main);
    let mut reg = registration();
    reg.surface_id = surface.id.clone();
    registry.register_runtime(reg, "r1".to_string()).unwrap();
    finish_close_runtime(&mut surfaces, &mut registry, "r1", &surface.id);
    assert!(registry.runtime("r1").is_none());
    assert!(surfaces.metadata(&surface.webview_label).is_none());
}

fn text(v: &str) -> ParamValue {
    ParamValue { text: Some(v.to_string()), count: None, strings: None, json: format!("{v:?}") }
}

fn params(entries: Vec<(&str, ParamValue)>) -> CallParams {
    CallParams { entries: entries.into_iter().map(|(k, v)| (k.to_string(), v)).collect() }
}

fn dispatch_registry(perms: Vec<&str>) -> PluginRuntimeRegistry {
    let mut registry = test_registry();
    let mut reg = registration();
    reg.permissions = perms.into_iter().map(str::to_string).collect();
    registry.register_runtime(reg, "r1".to_string()).unwrap();
    registry
}

const LABEL: &str = "plugin-a1b2c3d4-e5f6-7890-abcd-ef1111111111";

#[test]
fn view_calls_from_unknown_webviews_are_denied() {
    let registry = dispatch_registry(vec![]);
    let e = plan_view_call(&registry, "nobody", "runtime.ready", &params(vec![])).unwrap_err();
    assert_eq!(e.code, PluginRuntimeErrorCode::PermissionDenied);
    assert_eq!(e.message, "not a registered plugin runtime: nobody");
}

#[test]
fn view_calls_need_permission() {
    let registry = dispatch_registry(vec![]);
    let e = plan_view_call(&registry, LABEL, "ui.close", &params(vec![])).unwrap_err();
    assert_eq!(e.code, PluginRuntimeErrorCode::PermissionDenied);
    assert_eq!(e.message, "plugin dev.litools.test is not allowed to call ui.close");
    let e = plan_view_call(&registry, LABEL, "window.invoke", &params(vec![])).unwrap_err();
    assert_eq!(e.message, "plugin dev.litools.test is not allowed to call window.invoke");
}

#[test]
fn view_calls_plan_host_actions() {
    let registry = dispatch_registry(vec!["litools-sdk:allow-ui", "litools-sdk:allow-storage"]);
    match plan_view_call(&registry, LABEL, "runtime.ready", &params(vec![])).unwrap() {
        ViewCallAction::MarkReady { runtime_id } => assert_eq!(runtime_id, "r1"),
        other => panic!("unexpected {other:?}"),
    }
    match plan_view_call(&registry, LABEL, "permissions.query", &params(vec![("permission", text("litools-sdk:allow-ui"))])).unwrap() {
        ViewCallAction::ReportPermission(q) => {
            assert_eq!(q.permission, "litools-sdk:allow-ui");
            assert_eq!(q.state, PermissionQueryState::Granted);
        }
        other => panic!("unexpected {other:?}"),
    }
    match plan_view_call(&registry, LABEL, "ui.setTitle", &params(vec![("title", text("Hi"))])).unwrap() {
        ViewCallAction::SetTitle { runtime_id, title } => {
            assert_eq!(runtime_id, "r1");
            assert_eq!(title, "Hi");
        }
        other => panic!("unexpected {other:?}"),
    }
    let e = plan_view_call(&registry, LABEL, "ui.setTitle", &params(vec![("title", text("   "))])).unwrap_err();
    assert_eq!(e.code, PluginRuntimeErrorCode::InvalidParams);
    assert_eq!(e.message, "title must not be empty");
    let long = "x".repeat(129);
    let e = plan_view_call(&registry, LABEL, "ui.setTitle", &params(vec![("title", text(&long))])).unwrap_err();
    assert_eq!(e.message, "title must not exceed 128 bytes");
    let e = plan_view_call(&registry, LABEL, "ui.toast", &params(vec![])).unwrap_err();
    assert_eq!(e.message, "message must be a string");
}

#[test]
fn storage_calls_check_keys_and_values() {
    let registry = dispatch_registry(vec!["litools-sdk:allow-storage"]);
    match plan_view_call(&registry, LABEL, "storage.get", &params(vec![("key", text("k"))])).unwrap() {
        ViewCallAction::StorageGet { plugin_id, key } => {
            assert_eq!(plugin_id, "dev.litools.test");
            assert_eq!(key, "k");
        }
        other => panic!("unexpected {other:?}"),
    }
    let e = plan_view_call(&registry, LABEL, "storage.get", &params(vec![("key", text(""))])).unwrap_err();
    assert_eq!(e.message, "storage key must not be empty");
    let e = plan_view_call(&registry, LABEL, "storage.get", &params(vec![("key", text(&"k".repeat(257)))])).unwrap_err();
    assert_eq!(e.message, "storage key exceeds 256 bytes");
    let e = plan_view_call(&registry, LABEL, "storage.remove", &params(vec![("key", text("a\nb"))])).unwrap_err();
    assert_eq!(e.message, "storage key must not contain control characters");
    let e = plan_view_call(&registry, LABEL, "storage.set", &params(vec![("key", text("k"))])).unwrap_err();
    assert_eq!(e.message, "storage.set requires value");
    let big = ParamValue { text: None, count: None, strings: None, json: "x".repeat(262145) };
    let e = plan_view_call(&registry, LABEL, "storage.set", &params(vec![("key", text("k")), ("value", big)])).unwrap_err();
    assert_eq!(e.message, "storage value exceeds 262144 bytes");
    match plan_view_call(&registry, LABEL, "storage.set", &params(vec![("key", text("k")), ("value", text("v"))])).unwrap() {
        ViewCallAction::StorageSet { value_json, .. } => assert_eq!(value_json, "\"v\""),
        other => panic!("unexpected {other:?}"),
    }
}

#[test]
fn search_providers_are_named_after_their_plugin() {
    let registry = dispatch_registry(vec!["litools-sdk:allow-search-provider"]);
    match plan_view_call(&registry, LABEL, "search.registerProvider", &params(vec![("id", text("files"))])).unwrap() {
        ViewCallAction::RegisterSearchProvider { provider_id, timeout_ms, webview_label, .. } => {
            assert_eq!(provider_id, "dev.litools.test.files");
            assert_eq!(timeout_ms, 300);
            assert_eq!(webview_label, LABEL);
        }
        other => panic!("unexpected {other:?}"),
    }
    let timeout = ParamValue { text: None, count: Some(50), strings: None, json: "50".to_string() };
    match plan_view_call(&registry, LABEL, "search.registerProvider", &params(vec![("id", text("files")), ("timeout", timeout)])).unwrap() {
        ViewCallAction::RegisterSearchProvider { timeout_ms, .. } => assert_eq!(timeout_ms, 50),
        other => panic!("unexpected {other:?}"),
    }
}

fn spec(id: Option<&str>, title: Option<&str>) -> CommandSpec {
    CommandSpec {
        id: id.map(str::to_string),
        title: title.map(str::to_string),
        subtitle: None,
        keywords: None,
        mode: None,
        executor: None,
        icon: None,
        script: None,
        lifecycle: None,
        executor_runtime_id: Some("exec".to_string()),
    }
}

#[test]
fn runtime_commands_need_a_registered_runtime() {
    let registry = dispatch_registry(vec![]);
    assert_eq!(command_registrar(&registry, "main").unwrap_err(), "not a plugin webview");
    assert_eq!(command_registrar(&registry, "plugin-r9").unwrap_err(), "runtime not found: r9");
    let g = command_registrar(&registry, "plugin-r1").unwrap();
    assert_eq!(g.runtime_id, "r1");
    assert_eq!(g.plugin_id, "dev.litools.test");
}

#[test]
fn added_commands_stop_at_the_first_bad_one() {
    let plan = plan_add_commands("p", "r1", &vec![spec(Some("a"), Some("A")), spec(None, Some("B")), spec(Some("c"), Some("C"))]);
    assert_eq!(plan.records.len(), 1);
    assert_eq!(plan.error, Some("missing id".to_string()));
    let r = &plan.records[0];
    assert_eq!(r.id, "p:a");
    assert_eq!(r.mode, "instant");
    assert_eq!(r.lifecycle, "permanent");
    assert_eq!(r.source, "runtime");
    assert_eq!(r.registrar_runtime_id, Some("r1".to_string()));
    assert_eq!(r.executor_runtime_id, Some("exec".to_string()));
    let plan = plan_replace_commands("p", "r1", &vec![spec(Some("a"), None)], &vec!["p:a".to_string()]);
    assert!(plan.records.is_empty());
    assert_eq!(plan.error, Some("missing title".to_string()));
    let plan = plan_replace_commands("p", "r1", &vec![spec(Some("a"), Some("A"))], &vec!["id-a".to_string()]);
    assert_eq!(plan.records[0].id, "id-a");
    assert_eq!(plan.records[0].executor_runtime_id, None);
    assert_eq!(plan.error, None);
}

#[test]
fn replacing_commands_is_all_or_nothing() {
    let specs = vec![spec(Some("a"), Some("A")), spec(Some("b"), None)];
    let plan = plan_replace_commands("p", "r1", &specs, &vec!["p:a".to_string(), "p:b".to_string()]);
    assert!(plan.records.is_empty());
    assert_eq!(plan.error, Some("missing title".to_string()));
    let specs = vec![spec(Some("a"), Some("A")), spec(None, Some("B")), spec(Some("c"), None)];
    let ids = vec!["p:a".to_string(), "p:".to_string(), "p:c".to_string()];
    let plan = plan_replace_commands("p", "r1", &specs, &ids);
    assert!(plan.records.is_empty());
    assert_eq!(plan.error, Some("missing id".to_string()));
}

#[test]
fn updates_replace_only_given_fields() {
    let existing = CommandRecord {
        id: "p:a".to_string(),
        plugin_id: "p".to_string(),
        command_id: "a".to_string(),
        title: "Old".to_string(),
        subtitle: Some("sub".to_string()),
        keywords: vec!["k".to_string()],
        mode: "view".to_string(),
        executor: None,
        icon: Some("i.png".to_string()),
        script: None,
        source: "manifest".to_string(),
        lifecycle: "permanent".to_string(),
        registrar_runtime_id: None,
        executor_runtime_id: Some("x".to_string()),
        permission_requirements: vec!["ui".to_string()],
    };
    let mut patch = spec(None, Some("New"));
    patch.keywords = Some(vec![]);
    patch.executor_runtime_id = Some("ignored".to_string());
    let merged = merge_command_update(existing, &patch, "p:a".to_string(), "p".to_string(), "a".to_string());
    assert_eq!(merged.title, "New");
    assert_eq!(merged.subtitle, Some("sub".to_string()));
    assert!(merged.keywords.is_empty());
    assert_eq!(merged.mode, "view");
    assert_eq!(merged.icon, Some("i.png".to_string()));
    assert_eq!(merged.source, "manifest");
    assert_eq!(merged.executor_runtime_id, Some("x".to_string()));
    assert_eq!(merged.permission_requirements, vec!["ui".to_string()]);
}

#[test]
fn next_runtime_id_is_a_v4_uuid_text() {
    let id = PluginRuntimeRegistry::new(WebviewSearchBridge::new()).next_runtime_id();
    let chars: Vec<char> = id.chars().collect();
    assert_eq!(chars.len(), 36);
    for (i, c) in chars.iter().enumerate() {
        if i == 8 || i == 13 || i == 18 || i == 23 {
            assert_eq!(*c, '-');
        } else {
            assert!(c.is_ascii_digit() || ('a'..='f').contains(c));
        }
    }
    assert_eq!(chars[14], '4');
    assert!(['8', '9', 'a', 'b'].contains(&chars[19]));
}

#[test]
fn focus_state_stays_consistent_through_enter_ready_and_leave() {
    let mut registry = test_registry();
    registry.register_runtime(registration(), "r1".to_string()).unwrap();
    let c = registry.mark_focus_enter("r1").unwrap();
    assert!(c.pending_enter && !c.entered);
    let c = registry.mark_ready("r1").unwrap();
    assert!(c.entered && !c.pending_enter);
    assert_eq!(c.lifecycle, PluginRuntimeLifecycle::Active);
    let c = registry.mark_leave("r1").unwrap();
    assert!(!c.entered && !c.pending_enter);
    assert_eq!(c.lifecycle, PluginRuntimeLifecycle::Ready);
}

#[test]
fn removing_a_just_registered_runtime_restores_the_registry() {
    let mut registry = test_registry();
    let c = registry.register_runtime(registration(), "r1".to_string()).unwrap();
    let removed = registry.remove("r1").unwrap();
    assert_eq!(removed.id, c.id);
    assert_eq!(removed.surface_id, c.surface_id);
    assert!(registry.runtime("r1").is_none());
    assert!(registry.runtime_for_plugin_command("dev.litools.test", "hello").is_none());
}
