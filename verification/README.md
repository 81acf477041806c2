# litools_desktop

The decision logic of the litools desktop shell, written in Verus: the
functions under `src/` are verified by Verus against their `requires` /
`ensures` contracts, and the public `law_*` proof functions state properties that span
several calls (what a registry gives back after a registration, what a
removal leaves, how index refreshes coalesce, and so on).

Layout:

- `src/host/plugins/` — plugin commands, the view-call planner and its
  permission checks, the runtime registry with its lifecycle, pending
  search/detection requests, and plugin summaries.
- `src/host/surface/` — the surface registry and the detach / route / destroy
  decisions made on it.
- `src/protocol/` — the `plugin://` asset protocol, app icon URIs and the
  icon disk-cache pruning order.
- `src/plugin_runtime/` — the runtime preload script and the permission
  needed for each runtime method.
- `src/index_refresh.rs`, `src/shortcut.rs`, `src/state.rs`,
  `src/app_watcher.rs`, `src/background/` — index refresh coalescing,
  accelerator parsing, launcher positioning state, the app watcher status and
  background runtimes.
- `src/label_map.rs`, `src/text.rs` — a sorted map keyed by labels and the
  string helpers the rest is proved with.
- `app/` — the thin Tauri glue (commands, windows, file and network I/O) that
  calls into the library; it is ordinary Rust and not verified.
- `tests/` — tests run against the compiled library.

Calls into `chrono`, `uuid`, `serde_json` and `http` stand behind small
`#[verifier::external_body]` wrappers whose doc comments say what their
contracts claim of the outside function.
