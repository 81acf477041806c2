use litools_desktop::host::surface::model::SurfaceLifecycle;
use litools_desktop::host::surface::registry::SurfaceRegistry;
use litools_desktop::host::surface::service::{
    apply_surface_route, check_destroyable_surface, check_detachable_surface,
    current_main_route, has_main_launcher_surface, launcher_reset_target,
    record_detached_surface, target_surface,
};
use litools_desktop::view::{ViewDefinition, ViewKind, ViewProvider, WindowHostKind};
use litools_desktop::windowing::labels::MAIN_WINDOW_LABEL;

fn test_view(route: &str) -> ViewDefinition {
    ViewDefinition {
        id: "core.launcher".to_string(),
        provider: ViewProvider::Core,
        kind: ViewKind::Launcher,
        route: route.to_string(),
        title: "Test".to_string(),
        default_host: WindowHostKind::Main,
        allowed_hosts: vec![WindowHostKind::Main],
        detachable: false,
    }
}

#[test]
fn registers_and_finds_surface() {
    let mut registry = SurfaceRegistry::default();
    let view = test_view("/");
    let metadata =
        registry.register_surface(view, MAIN_WINDOW_LABEL.to_string(), WindowHostKind::Main);

    assert_eq!(metadata.route, "/");
    assert_eq!(metadata.host_kind, WindowHostKind::Main);
    assert!(matches!(metadata.lifecycle, SurfaceLifecycle::Active));

    let found = registry.metadata(&metadata.webview_label);
    assert!(found.is_some());
    assert_eq!(found.unwrap().id, metadata.id);
}

#[test]
fn lists_all_surfaces() {
    let mut registry = SurfaceRegistry::default();
    registry.register_surface(test_view("/a"), "main".to_string(), WindowHostKind::Main);
    registry.register_surface(test_view("/b"), "main".to_string(), WindowHostKind::Main);

    assert_eq!(registry.list().len(), 2);
}

#[test]
fn marks_lifecycle_and_removes_surface() {
    let mut registry = SurfaceRegistry::default();
    let metadata =
        registry.register_surface(test_view("/"), "main".to_string(), WindowHostKind::Main);

    let updated = registry
        .mark_lifecycle(&metadata.webview_label, SurfaceLifecycle::Hidden)
        .expect("mark lifecycle");
    assert!(matches!(updated.lifecycle, SurfaceLifecycle::Hidden));

    let removed = registry.remove(&metadata.webview_label);
    assert!(removed.is_some());
    assert!(registry.metadata(&metadata.webview_label).is_none());
}

#[test]
fn surface_ids_count_up_from_one() {
    let mut registry = SurfaceRegistry::default();
    let first = registry.register_surface(test_view("/"), "main".to_string(), WindowHostKind::Main);
    let second = registry.register_surface(test_view("/"), "main".to_string(), WindowHostKind::Main);
    assert_eq!(first.id, "surface_000001");
    assert_eq!(second.id, "surface_000002");
    assert!(!first.focused);
}

#[test]
fn detached_host_labels_count_up() {
    let mut registry = SurfaceRegistry::default();
    let a = registry.next_detached_host_label();
    let b = registry.next_detached_host_label();
    assert_ne!(a, b);
    assert!(a.ends_with("panel_000001"));
    assert!(b.ends_with("panel_000002"));
}

#[test]
fn main_label_names_the_first_main_surface() {
    let mut registry = SurfaceRegistry::default();
    let first = registry.register_surface(test_view("/"), "main".to_string(), WindowHostKind::Main);
    registry.register_surface(test_view("/x"), "detached-panel_000001".to_string(), WindowHostKind::Detached);
    let found = registry.metadata("main").expect("main surface");
    assert_eq!(found.id, first.id);
    assert!(registry.metadata("nothing").is_none());
}

#[test]
fn detaching_checks_and_records_the_move() {
    let mut registry = SurfaceRegistry::default();
    let m = registry.register_surface(test_view("/"), "main".to_string(), WindowHostKind::Main);
    let label = m.webview_label.clone();
    assert!(check_detachable_surface(&registry, &label).is_ok());
    assert_eq!(
        check_detachable_surface(&registry, "missing").unwrap_err(),
        "surface metadata not found: missing"
    );
    let moved = record_detached_surface(
        &mut registry,
        &label,
        "detached-panel_000001".to_string(),
        test_view("/settings"),
    )
    .expect("recorded");
    assert_eq!(moved.host_kind, WindowHostKind::Detached);
    assert_eq!(moved.host_window_label, "detached-panel_000001");
    assert_eq!(moved.route, "/settings");
    assert!(moved.focused);
    assert_eq!(
        check_detachable_surface(&registry, &label).unwrap_err(),
        format!("surface is already detached: {label}")
    );
    assert!(record_detached_surface(&mut registry, "missing", "x".to_string(), test_view("/")).is_err());
}

#[test]
fn destroyed_surfaces_cannot_detach() {
    let mut registry = SurfaceRegistry::default();
    let m = registry.register_surface(test_view("/"), "main".to_string(), WindowHostKind::Main);
    registry.mark_lifecycle(&m.webview_label, SurfaceLifecycle::Destroyed);
    assert_eq!(
        check_detachable_surface(&registry, &m.webview_label).unwrap_err(),
        format!("surface has been destroyed: {}", m.webview_label)
    );
}

#[test]
fn route_changes_only_when_different() {
    let mut registry = SurfaceRegistry::default();
    let m = registry.register_surface(test_view("/"), "main".to_string(), WindowHostKind::Main);
    let (same, changed) = apply_surface_route(&mut registry, &m.webview_label, test_view("/")).unwrap();
    assert!(!changed);
    assert_eq!(same.route, "/");
    let (next, changed) = apply_surface_route(&mut registry, &m.webview_label, test_view("/settings")).unwrap();
    assert!(changed);
    assert_eq!(next.route, "/settings");
    assert!(apply_surface_route(&mut registry, "missing", test_view("/")).is_err());
}

#[test]
fn main_surfaces_cannot_be_destroyed() {
    let mut registry = SurfaceRegistry::default();
    let m = registry.register_surface(test_view("/"), "main".to_string(), WindowHostKind::Main);
    let d = registry.register_surface(test_view("/p"), "detached-panel_000001".to_string(), WindowHostKind::Detached);
    assert_eq!(
        check_destroyable_surface(&registry, &m.webview_label).unwrap_err(),
        "main surface cannot be destroyed through managed surface API"
    );
    assert_eq!(check_destroyable_surface(&registry, &d.webview_label).unwrap().id, d.id);
    assert_eq!(target_surface(&registry, "gone").unwrap_err(), "surface metadata not found: gone");
}

#[test]
fn finds_the_main_launcher_surface_and_route() {
    let mut registry = SurfaceRegistry::default();
    let labels = vec!["unknown".to_string()];
    assert!(!has_main_launcher_surface(&registry, &labels));
    assert_eq!(current_main_route(&registry, &labels), "/");
    assert_eq!(launcher_reset_target(&registry, &labels), None);

    let m = registry.register_surface(test_view("/settings"), "main".to_string(), WindowHostKind::Main);
    let labels = vec!["unknown".to_string(), m.webview_label.clone()];
    assert!(has_main_launcher_surface(&registry, &labels));
    assert_eq!(current_main_route(&registry, &labels), "/settings");
    assert_eq!(launcher_reset_target(&registry, &labels), Some(m.webview_label.clone()));

    registry.mark_lifecycle(&m.webview_label, SurfaceLifecycle::Destroyed);
    assert!(!has_main_launcher_surface(&registry, &labels));
}

#[test]
fn focusing_marks_a_surface() {
    let mut registry = SurfaceRegistry::default();
    let m = registry.register_surface(test_view("/"), "main".to_string(), WindowHostKind::Main);
    let focused = registry.mark_focused(&m.webview_label, true).expect("known surface");
    assert!(focused.focused);
    assert!(registry.mark_focused("unknown", true).is_none());
}
