use litools_desktop::state::{
    LauncherMonitorFingerprint, LauncherSavedPosition, LauncherWindowPosition,
};
use litools_desktop::host::plugins::runtime::model::{PluginRuntimeError, PluginRuntimeErrorCode};
use std::cell::RefCell;

use litools_desktop::app_watcher::{AppWatcherState, AppWatcherStatus, NOT_STARTED_MESSAGE};
use litools_desktop::background::manager::{BackgroundRuntimeManager, RuntimePolicy as BgPolicy};
use litools_desktop::background::runtime::PluginRuntime;
use litools_desktop::host::events::{PluginEvent, PluginEventBus, PluginEventHandler};
use litools_desktop::host::executor::{
    default_executor, BackgroundRuntimeExecutor, CommandExecutor, ExecutorRegistry,
    InstantScriptRunner, ResolvedCommand, WebviewExecutor,
};
use litools_desktop::host::plugins::commands::CommandRecord;
use litools_desktop::host::plugins::resolver::resolve_command;
use litools_desktop::host::plugins::runtime::detector_registry::{DetectorRegistry, RegisteredDetector};
use litools_desktop::index_refresh::{IndexRefreshTrigger, IndexStatus};
use litools_desktop::plugin_runtime::permissions::{
    categorize_method, required_permission_for_method, CommandCategory,
    RuntimePermissionRequirement,
};
use litools_desktop::plugin_runtime::preload::{
    initialization_script, lifecycle_eval_script, LIFECYCLE_ENTER_EVENT, LIFECYCLE_LEAVE_EVENT,
};
use litools_desktop::shortcut::{normalize_accelerator, parse_shortcut, ShortcutModifier};
use litools_desktop::state::{LauncherPositioningState, ShortcutStatus};

#[test]
fn a_refresh_asked_during_a_run_reruns_once() {
    let mut status: IndexStatus<u32> = IndexStatus::default();
    assert!(status.prepare_index_refresh("startup"));
    assert!(status.running && !status.pending);
    assert!(!status.prepare_index_refresh("manual"));
    assert!(!status.prepare_index_refresh("appWatcher"));
    assert!(status.pending);
    assert_eq!(status.last_trigger, Some("appWatcher".to_string()));
    assert!(status.finish_index_refresh(Ok(7)));
    assert!(status.running && !status.pending);
    assert_eq!(status.last_summary, Some(7));
    assert!(!status.finish_index_refresh(Err("boom".to_string())));
    assert!(!status.running);
    assert_eq!(status.last_error, Some("boom".to_string()));
    assert_eq!(status.last_summary, Some(7));
    assert!(status.prepare_index_refresh("manual"));
    assert_eq!(status.last_error, None);
}

#[test]
fn refresh_triggers_have_names_and_delays() {
    assert_eq!(IndexRefreshTrigger::Startup.as_str(), "startup");
    assert_eq!(IndexRefreshTrigger::Manual.as_str(), "manual");
    assert_eq!(IndexRefreshTrigger::AppWatcher.as_str(), "appWatcher");
    assert_eq!(IndexRefreshTrigger::AppWatcher.debounce_delay(), Some(1));
    assert_eq!(IndexRefreshTrigger::Manual.debounce_delay(), None);
}

#[test]
fn accelerators_have_one_spelling() {
    assert_eq!(normalize_accelerator(" Cmd+Space "), "Meta+Space");
    assert_eq!(normalize_accelerator("Command+Space"), "Meta+Space");
    assert_eq!(normalize_accelerator("Ctrl+Space"), "Control+Space");
    assert_eq!(normalize_accelerator(""), "CommandOrControl+Space");
    assert_eq!(normalize_accelerator("  "), "CommandOrControl+Space");
    assert_eq!(normalize_accelerator(" Alt+K "), "Alt+K");
    assert_eq!(parse_shortcut("Control+Space"), ShortcutModifier::Control);
    assert_eq!(parse_shortcut("Meta+Space"), ShortcutModifier::Meta);
    assert_eq!(parse_shortcut("Alt+K"), ShortcutModifier::CommandOrControl);
    let status = ShortcutStatus::default();
    assert_eq!(status.accelerator, "CommandOrControl+Space");
    assert!(!status.registered);
}

#[test]
fn programmatic_layouts_last_a_tenth_of_a_second() {
    let mut state = LauncherPositioningState::default();
    state.begin_programmatic_layout_at(1_000);
    assert!(state.is_programmatic_layout_at(1_000));
    assert!(state.is_programmatic_layout_at(100_000_999));
    assert!(!state.is_programmatic_layout_at(100_001_000));
    state.begin_programmatic_layout_at(u64::MAX - 5);
    assert_eq!(state.ignore_moved_until, u64::MAX);
    state.begin_programmatic_layout();
    assert!(state.is_programmatic_layout());
}

#[test]
fn watcher_status_reports_the_last_start() {
    let state = AppWatcherState::default();
    let s = state.status("macos");
    assert!(!s.enabled);
    assert_eq!(s.status, "disabled");
    assert_eq!(s.error, Some(NOT_STARTED_MESSAGE.to_string()));
    let mut state = AppWatcherState::default();
    state.set_status(AppWatcherStatus::after_start("linux", Ok(())));
    let s = state.status("macos");
    assert_eq!(s.platform, "linux");
    assert!(s.enabled);
    assert_eq!(s.status, "running");
    let failed = AppWatcherStatus::after_start("linux", Err("no inotify".to_string()));
    assert_eq!(failed.error, Some("no inotify".to_string()));
}

struct Recorder {
    ran: RefCell<Vec<String>>,
}

impl PluginRuntime for Recorder {
    fn execute(&self, script_uri: &str) -> Result<(), String> {
        self.ran.borrow_mut().push(script_uri.to_string());
        Ok(())
    }
}

#[test]
fn background_runtimes_expire_when_idle() {
    let mut m = BackgroundRuntimeManager::new(BgPolicy::PerPlugin, 100);
    m.register_runtime_at("p", Recorder { ran: RefCell::new(vec![]) }, 0);
    assert_eq!(m.execute_at("p", "a.js", 50), Ok(()));
    assert_eq!(m.execute_at("p", "b.js", 140), Ok(()));
    assert_eq!(
        m.execute_at("p", "c.js", 300),
        Err("no runtime registered for plugin 'p' (key: 'p')".to_string())
    );
    let mut shared = BackgroundRuntimeManager::new(BgPolicy::Shared, 100);
    shared.register_runtime_at("p", Recorder { ran: RefCell::new(vec![]) }, 0);
    assert_eq!(shared.resolve_key("q"), "shared");
    assert_eq!(shared.execute_at("q", "x.js", 1), Ok(()));
    assert_eq!(
        shared.execute_at("q", "x.js", 500),
        Err("no runtime registered for plugin 'q' (key: 'shared')".to_string())
    );
}

fn resolved(executor: &str, mode: &str, script: Option<&str>) -> ResolvedCommand {
    ResolvedCommand {
        id: "p:c".to_string(),
        plugin_id: "p".to_string(),
        command_id: "c".to_string(),
        title: "C".to_string(),
        mode: mode.to_string(),
        executor: executor.to_string(),
        icon: None,
        script: script.map(str::to_string),
        permissions: vec![],
    }
}

struct Scripts;

impl InstantScriptRunner for Scripts {
    fn run_script(&self, plugin_id: &str, script_uri: &str) -> Result<(), String> {
        Err(format!("ran {plugin_id} {script_uri}"))
    }
}

#[test]
fn commands_go_to_their_executor() {
    assert_eq!(default_executor("view"), "webview");
    assert_eq!(default_executor("instant"), "backgroundRuntime");
    assert_eq!(default_executor("searchProvider"), "provider");
    assert_eq!(default_executor("other"), "webview");
    let mut registry: ExecutorRegistry<WebviewExecutor> = ExecutorRegistry::new();
    registry.register("webview", WebviewExecutor);
    assert_eq!(registry.resolve_executor(&resolved("", "instant", None)), "backgroundRuntime");
    assert_eq!(registry.resolve_executor(&resolved("custom", "view", None)), "custom");
    assert_eq!(registry.execute(&resolved("", "view", None), &()), Ok(()));
    assert_eq!(
        registry.execute(&resolved("", "instant", None), &()),
        Err("unknown executor: backgroundRuntime".to_string())
    );
    let bg = BackgroundRuntimeExecutor::new(Scripts);
    assert_eq!(
        bg.execute(&resolved("", "instant", None), &()),
        Err("instant command 'p:c' has no script".to_string())
    );
    assert_eq!(
        bg.execute(&resolved("", "instant", Some("u.js")), &()),
        Err("ran p u.js".to_string())
    );
}

#[test]
fn stored_commands_resolve_to_script_uris() {
    let record = CommandRecord {
        id: "p:c".to_string(),
        plugin_id: "p".to_string(),
        command_id: "c".to_string(),
        title: "C".to_string(),
        subtitle: None,
        keywords: vec![],
        mode: "instant".to_string(),
        executor: Some(String::new()),
        icon: None,
        script: None,
        source: "manifest".to_string(),
        lifecycle: "permanent".to_string(),
        registrar_runtime_id: None,
        executor_runtime_id: None,
        permission_requirements: vec!["x".to_string()],
    };
    let r = resolve_command(&record);
    assert_eq!(r.script, Some("litools-plugin://p/dist/commands/c.js".to_string()));
    assert_eq!(r.executor, "backgroundRuntime");
    let mut record = record;
    record.script = Some("//scripts/run.js".to_string());
    record.executor = Some("custom".to_string());
    let r = resolve_command(&record);
    assert_eq!(r.script, Some("litools-plugin://p/scripts/run.js".to_string()));
    assert_eq!(r.executor, "custom");
    assert_eq!(r.permissions, vec!["x".to_string()]);
}

struct Counter {
    seen: RefCell<Vec<String>>,
}

impl PluginEventHandler for &Counter {
    fn handle(&self, event: &PluginEvent) {
        if let PluginEvent::CommandsReplaced(p, n) = event {
            self.seen.borrow_mut().push(format!("{p}:{n}"));
        }
    }
}

#[test]
fn events_reach_every_subscriber() {
    let a = Counter { seen: RefCell::new(vec![]) };
    let b = Counter { seen: RefCell::new(vec![]) };
    let mut bus = PluginEventBus::new();
    bus.subscribe(&a);
    bus.subscribe(&b);
    bus.emit(PluginEvent::CommandsReplaced("p".to_string(), 3));
    assert_eq!(*a.seen.borrow(), vec!["p:3".to_string()]);
    assert_eq!(*b.seen.borrow(), vec!["p:3".to_string()]);
}

fn detector(id: &str, runtime: &str, plugin: &str) -> RegisteredDetector {
    RegisteredDetector {
        plugin_id: plugin.to_string(),
        runtime_id: runtime.to_string(),
        local_detector_id: "local".to_string(),
        feature_kind: "text".to_string(),
        detector_id: id.to_string(),
        webview_label: "w".to_string(),
        registered_at: "now".to_string(),
    }
}

#[test]
fn detectors_are_dropped_with_their_runtime_or_plugin() {
    let mut d = DetectorRegistry::new();
    assert!(d.register_webview_detector(detector("b", "r1", "p")).is_none());
    assert!(d.register_webview_detector(detector("a", "r2", "p")).is_none());
    assert!(d.register_webview_detector(detector("c", "r1", "q")).is_none());
    assert!(d.register_webview_detector(detector("c", "r1", "q")).is_some());
    assert_eq!(d.unregister_runtime("r1"), vec!["b".to_string(), "c".to_string()]);
    assert_eq!(d.unregister_plugin("p"), vec!["a".to_string()]);
    assert!(d.unregister("a").is_none());
}

#[test]
fn first_bridge_methods_and_command_categories() {
    assert_eq!(required_permission_for_method("runtime.ready"), Some(RuntimePermissionRequirement::Intrinsic));
    assert_eq!(
        required_permission_for_method("storage.clear"),
        Some(RuntimePermissionRequirement::Permission("storage:plugin"))
    );
    assert_eq!(
        required_permission_for_method("settings.update"),
        Some(RuntimePermissionRequirement::Permission("settings:write"))
    );
    assert_eq!(required_permission_for_method("window.invoke"), None);
    assert_eq!(categorize_method("search"), CommandCategory::Host);
    assert_eq!(categorize_method("open_plugin_devtools"), CommandCategory::Host);
    assert_eq!(categorize_method("plugins.list"), CommandCategory::Internal);
    assert_eq!(categorize_method("storage.get"), CommandCategory::Sdk);
}

#[test]
fn preload_scripts_name_the_lifecycle_events() {
    let script = initialization_script();
    assert!(script.starts_with("(function () {"));
    assert!(script.contains("window.addEventListener('plugin-runtime://enter'"));
    assert!(script.contains("window.addEventListener('plugin-runtime://leave'"));
    assert!(script.contains("Object.defineProperty(window, 'litools'"));
    assert_eq!(LIFECYCLE_ENTER_EVENT, "plugin-runtime://enter");
    assert_eq!(LIFECYCLE_LEAVE_EVENT, "plugin-runtime://leave");
    assert_eq!(
        lifecycle_eval_script("plugin-runtime://enter"),
        "window.dispatchEvent(new CustomEvent(\"plugin-runtime://enter\"));"
    );
    assert_eq!(
        lifecycle_eval_script("a\"b\\c\n\u{1}"),
        "window.dispatchEvent(new CustomEvent(\"a\\\"b\\\\c\\n\\u0001\"));"
    );
}

#[test]
fn launcher_positions_are_remembered_and_cleared() {
    let mut state = LauncherPositioningState::default();
    assert_eq!(state.launcher_saved_position(), None);
    let saved = LauncherSavedPosition {
        monitor: LauncherMonitorFingerprint { x: 0, y: 0, width: 1920, height: 1080, scale_millis: 2000 },
        position: LauncherWindowPosition { x: 10, y: 20 },
    };
    state.replace_launcher_saved_position(saved);
    assert_eq!(state.launcher_saved_position(), Some(saved));
    state.clear_launcher_saved_position();
    assert_eq!(state.launcher_saved_position(), None);
}

#[test]
fn runtime_errors_carry_their_code() {
    let e = PluginRuntimeError::unsupported("nope".to_string());
    assert_eq!(e.code, PluginRuntimeErrorCode::Unsupported);
    assert_eq!(e.message, "nope");
    assert_eq!(PluginRuntimeError::internal("x".to_string()).code, PluginRuntimeErrorCode::Internal);
}

#[test]
fn clock_readings_before_the_epoch_count_as_zero() {
    assert_eq!(litools_desktop::clock::nanos_since_epoch(Some(1_500)), 1_500);
    assert_eq!(litools_desktop::clock::nanos_since_epoch(Some(-7)), 0);
    assert_eq!(litools_desktop::clock::nanos_since_epoch(None), 0);
}

struct Tagged {
    tag: &'static str,
    log: std::rc::Rc<RefCell<Vec<String>>>,
}

impl PluginRuntime for Tagged {
    fn execute(&self, script_uri: &str) -> Result<(), String> {
        self.log.borrow_mut().push(format!("{}:{}", self.tag, script_uri));
        Ok(())
    }
}

#[test]
fn a_later_shared_registration_replaces_the_runtime() {
    let log = std::rc::Rc::new(RefCell::new(Vec::new()));
    let mut m = BackgroundRuntimeManager::new(BgPolicy::Shared, 100);
    m.register_runtime_at("a", Tagged { tag: "r1", log: log.clone() }, 0);
    m.register_runtime_at("b", Tagged { tag: "r2", log: log.clone() }, 0);
    assert_eq!(m.execute_at("a", "u.js", 10), Ok(()));
    assert_eq!(*log.borrow(), vec!["r2:u.js".to_string()]);
}

#[test]
fn the_view_preload_script_relays_lifecycle_events() {
    let script = litools_desktop::host::plugins::runtime::preload::initialization_script();
    assert!(script.starts_with("(function () {"));
    assert!(script.ends_with("})();"));
    assert!(script.contains("window.addEventListener('plugin-runtime://enter', function () { emitLifecycle('enter'); });"));
    assert!(script.contains("window.addEventListener('plugin-runtime://leave', function () { emitLifecycle('leave'); });"));
    assert!(script.contains("event.preventDefault();"));
    assert!(script.contains("border-radius: 0 0 20px 20px!important;"));
}
