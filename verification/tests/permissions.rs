use litools_desktop::host::plugins::runtime::model::{
    PermissionQueryState, PluginRuntimeContext, PluginRuntimeLifecycle,
};
use litools_desktop::host::plugins::runtime::permissions::{
    can_call_method, categorize_permission, check_toplevel_invoke, plugin_capability_id,
    plugin_capability_permissions, query_permission, validate_declared_permissions,
    PermissionDomain,
};
use litools_desktop::manifest::RuntimePolicy;

fn context(permissions: Vec<&str>) -> PluginRuntimeContext {
    PluginRuntimeContext {
        id: "runtime_000001".to_string(),
        plugin_id: "dev.litools.test".to_string(),
        command_id: "hello".to_string(),
        plugin_name: "Test".to_string(),
        title: "Hello".to_string(),
        entry_url: "litools-plugin://dev.litools.test/dist/index.html".to_string(),
        surface_id: "surface_000001".to_string(),
        permissions: permissions.into_iter().map(str::to_string).collect(),
        trusted: false,
        policy: RuntimePolicy::Singleton,
        lifecycle: PluginRuntimeLifecycle::Created,
        pending_enter: false,
        entered: false,
        created_at: "now".to_string(),
        updated_at: "now".to_string(),
    }
}

fn s(v: &str) -> String {
    v.to_string()
}

#[test]
fn permissions_allows_intrinsic_methods() {
    assert!(can_call_method(&context(vec![]), "runtime.ready"));
    assert!(can_call_method(&context(vec![]), "runtime.getInfo"));
    assert!(can_call_method(&context(vec![]), "permissions.query"));
}

#[test]
fn permissions_denies_unknown_methods() {
    assert!(!can_call_method(
        &context(vec!["litools-sdk:allow-ui"]),
        "window.invoke"
    ));
}

#[test]
fn permissions_toplevel_allow_exact_match() {
    let ctx = context(vec!["clipboard-manager:allow-write_text"]);
    assert!(check_toplevel_invoke(
        &ctx,
        "plugin:clipboard-manager|write_text"
    ));
}

#[test]
fn permissions_toplevel_allow_default() {
    let ctx = context(vec!["clipboard-manager:default"]);
    assert!(check_toplevel_invoke(
        &ctx,
        "plugin:clipboard-manager|write_text"
    ));
}

#[test]
fn permissions_toplevel_deny_undeclared() {
    let ctx = context(vec!["clipboard-manager:allow-read_text"]);
    assert!(!check_toplevel_invoke(
        &ctx,
        "plugin:clipboard-manager|write_text"
    ));
}

#[test]
fn permissions_toplevel_passthrough_non_plugin() {
    let ctx = context(vec![]);
    assert!(check_toplevel_invoke(&ctx, "core:window|close"));
}

#[test]
fn permissions_toplevel_deny_malformed() {
    let ctx = context(vec!["anything:default"]);
    assert!(!check_toplevel_invoke(&ctx, "plugin:no_pipe"));
}

#[test]
fn validate_allows_official_plugins() {
    assert!(validate_declared_permissions(&[s("clipboard-manager:default")]).is_ok());
    assert!(validate_declared_permissions(&[s("fs:allow-read-text-file")]).is_ok());
    assert!(validate_declared_permissions(&[s("shell:allow-open")]).is_ok());
    assert!(validate_declared_permissions(&[s("unknown-plugin:allow-foo")]).is_ok());
}

#[test]
fn validate_allows_sdk_permissions() {
    assert!(validate_declared_permissions(&[s("litools-sdk:allow-storage")]).is_ok());
    assert!(validate_declared_permissions(&[s("litools-sdk:allow-runtime")]).is_ok());
    assert!(validate_declared_permissions(&[s("litools-sdk:allow-ui")]).is_ok());
}

#[test]
fn validate_allows_host() {
    assert!(validate_declared_permissions(&[s("litools-core:allow-search")]).is_ok());
    assert!(validate_declared_permissions(&[s("litools-core:allow-settings")]).is_ok());
}

#[test]
fn validate_rejects_malformed() {
    assert!(validate_declared_permissions(&[s("plugin:unknown-plugin|foo")]).is_err());
    assert!(validate_declared_permissions(&[s("random-string")]).is_err());
    assert!(validate_declared_permissions(&[s("foo:bar:baz")]).is_err());
    assert!(validate_declared_permissions(&[s(":abc")]).is_err());
    assert!(validate_declared_permissions(&[s("abc:")]).is_err());
}

#[test]
fn validate_allows_mixed() {
    assert!(validate_declared_permissions(&[
        s("clipboard-manager:default"),
        s("litools-core:allow-search"),
    ])
    .is_ok());
}

#[test]
fn validate_reports_the_first_malformed_permission() {
    let result = validate_declared_permissions(&[
        s("ui:window"),
        s("random-string"),
        s("foo:bar:baz"),
    ]);
    assert_eq!(result, Err("malformed permission: random-string".to_string()));
}

#[test]
fn requires_declared_permissions() {
    assert!(!can_call_method(&context(vec![]), "ui.close"));
    assert!(can_call_method(&context(vec!["litools-sdk:allow-ui"]), "ui.close"));
    assert!(!can_call_method(&context(vec!["litools-sdk:allow-ui"]), "storage.get"));
    assert!(can_call_method(&context(vec!["litools-sdk:allow-storage"]), "storage.get"));
    assert!(!can_call_method(
        &context(vec!["litools-sdk:allow-search-provider"]),
        "input.registerDetector"
    ));
    assert!(can_call_method(
        &context(vec!["litools-sdk:allow-input-detector"]),
        "input.registerDetector"
    ));
}

#[test]
fn trusted_only_methods_need_a_trusted_plugin() {
    let mut ctx = context(vec!["litools-sdk:allow-diagnostics"]);
    assert!(!can_call_method(&ctx, "diagnostics.get"));
    ctx.trusted = true;
    assert!(can_call_method(&ctx, "diagnostics.get"));
}

#[test]
fn permission_queries_report_declarations() {
    let ctx = context(vec!["litools-sdk:allow-ui"]);
    assert_eq!(query_permission(&ctx, "litools-sdk:allow-ui"), PermissionQueryState::Granted);
    assert_eq!(query_permission(&ctx, "litools-sdk:allow-storage"), PermissionQueryState::Denied);
}

#[test]
fn categorizes_permission_domains() {
    assert_eq!(categorize_permission("litools-core:allow-search"), PermissionDomain::Host);
    assert_eq!(categorize_permission("litools-sdk:allow-ui"), PermissionDomain::Sdk);
    assert_eq!(categorize_permission("clipboard-manager:default"), PermissionDomain::Official);
    assert_eq!(categorize_permission("random-string"), PermissionDomain::Unknown);
}

#[test]
fn capability_grants_depend_on_trust() {
    assert_eq!(plugin_capability_id("surface_000001"), "plugin-cap-surface_000001");
    let declared = vec![
        s("clipboard-manager:default"),
        s("litools-sdk:allow-diagnostics"),
        s("litools-sdk:allow-ui"),
    ];
    let untrusted = plugin_capability_permissions(&declared, false).expect("valid");
    assert_eq!(
        untrusted,
        vec![
            s("core:default"),
            s("litools-sdk:default"),
            s("clipboard-manager:default"),
            s("litools-sdk:allow-ui"),
        ]
    );
    let trusted = plugin_capability_permissions(&declared, true).expect("valid");
    assert_eq!(
        trusted,
        vec![
            s("core:default"),
            s("litools-sdk:default"),
            s("clipboard-manager:default"),
            s("litools-sdk:allow-diagnostics"),
            s("litools-sdk:allow-ui"),
        ]
    );
    assert!(plugin_capability_permissions(&[s("bad")], true).is_err());
}
