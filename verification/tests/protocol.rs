use litools_desktop::manifest::{PluginDevelopment, PluginManifest};
use litools_desktop::plugin_protocol;
use litools_desktop::protocol::icon::{app_id_from_uri, closest_icon_index, rgba_bytes, PixelFormat};
use litools_desktop::protocol::icon_disk_cache::{
    oldest_first, prune_count, summary_from_entries,
};
use litools_desktop::protocol::percent_decode;
use litools_desktop::protocol::plugin::{
    asset_request, asset_root, asset_within_root, content_type_for_path, path_escapes_root,
    plugin_asset_url, plugin_entry_url, resolve_entry_url, AssetStatus,
};

#[test]
fn plugin_protocol_builds_plugin_asset_url() {
    assert_eq!(
        plugin_protocol::plugin_asset_url("dev.litools.hello-world", "dist/index.html"),
        "litools-plugin://dev.litools.hello-world/dist/index.html"
    );
}

#[test]
fn plugin_protocol_decodes_percent_encoded_path() {
    assert_eq!(
        plugin_protocol::percent_decode("dist/My%20Page.html"),
        Some("dist/My Page.html".to_string())
    );
}

#[test]
fn plugin_protocol_rejects_invalid_percent_encoding() {
    assert_eq!(plugin_protocol::percent_decode("dist/%GG.html"), None);
}

#[test]
fn plugin_protocol_returns_known_content_types() {
    assert_eq!(
        plugin_protocol::content_type_for_path("index.html"),
        Some("text/html; charset=utf-8")
    );
    assert_eq!(
        plugin_protocol::content_type_for_path("app.css"),
        Some("text/css; charset=utf-8")
    );
}

#[test]
fn plugin_builds_plugin_asset_url() {
    assert_eq!(
        plugin_asset_url("dev.litools.hello-world", "dist/index.html"),
        "litools-plugin://dev.litools.hello-world/dist/index.html"
    );
}

#[test]
fn plugin_decodes_percent_encoded_path() {
    assert_eq!(
        percent_decode("dist/My%20Page.html"),
        Some("dist/My Page.html".to_string())
    );
}

#[test]
fn plugin_rejects_invalid_percent_encoding() {
    assert_eq!(percent_decode("dist/%GG.html"), None);
}

#[test]
fn plugin_returns_known_content_types() {
    assert_eq!(content_type_for_path("index.html"), Some("text/html; charset=utf-8"));
    assert_eq!(content_type_for_path("app.css"), Some("text/css; charset=utf-8"));
}

fn manifest(entry: Option<&str>, development: Option<&str>) -> PluginManifest {
    PluginManifest {
        id: "dev.litools.test".to_string(),
        name: "Test".to_string(),
        version: "0.1.0".to_string(),
        entry: entry.map(str::to_string),
        description: None,
        author: None,
        icon: "dist/icon.svg".to_string(),
        commands: vec![],
        singleton: true,
        permissions: vec![],
        development: development.map(|main| PluginDevelopment { main: main.to_string() }),
    }
}

#[test]
fn resolve_entry_url_uses_development_when_present() {
    let manifest = manifest(Some("dist/index.html"), Some("http://127.0.0.1:5173/index.html"));
    let url = resolve_entry_url("dev.litools.test", &manifest).expect("resolve");
    assert_eq!(url, "http://127.0.0.1:5173/index.html");
}

#[test]
fn resolve_entry_url_falls_back_to_production() {
    let manifest = manifest(Some("dist/index.html"), None);
    let url = resolve_entry_url("dev.litools.test", &manifest).expect("resolve");
    assert_eq!(url, "litools-plugin://dev.litools.test/dist/index.html");
}

#[test]
fn resolve_entry_url_errors_without_entry_or_development() {
    let manifest = manifest(None, None);
    let result = resolve_entry_url("dev.litools.test", &manifest);
    assert!(result.is_err());
}

#[test]
fn resolve_entry_url_refuses_escaping_entries() {
    let manifest = manifest(Some("../secret.html"), None);
    assert_eq!(
        resolve_entry_url("dev.litools.test", &manifest),
        Err("invalid plugin entry: ../secret.html".to_string())
    );
    assert_eq!(
        resolve_entry_url("dev.litools.test", &self::manifest(None, None)),
        Err("plugin dev.litools.test has no entry and no development server configured".to_string())
    );
}

#[test]
fn entry_urls_stay_inside_the_plugin() {
    assert_eq!(
        plugin_entry_url("p", "dist/index.html"),
        Ok("litools-plugin://p/dist/index.html".to_string())
    );
    assert_eq!(plugin_entry_url("p", "/etc/passwd"), Err("invalid plugin entry: /etc/passwd".to_string()));
    assert_eq!(plugin_entry_url("p", "a/../../b"), Err("invalid plugin entry: a/../../b".to_string()));
    assert!(plugin_entry_url("p", "a/..b/c").is_ok());
    assert!(plugin_entry_url("p", "..").is_err());
    assert!(!path_escapes_root("dist/..x"));
    assert!(path_escapes_root(".."));
}

#[test]
fn content_types_follow_the_extension() {
    assert_eq!(content_type_for_path("dist/APP.JS"), Some("text/javascript; charset=utf-8"));
    assert_eq!(content_type_for_path("a/b.mjs"), Some("text/javascript; charset=utf-8"));
    assert_eq!(content_type_for_path("x.json"), Some("application/json"));
    assert_eq!(content_type_for_path("x.svg"), Some("image/svg+xml"));
    assert_eq!(content_type_for_path("x.PNG"), Some("image/png"));
    assert_eq!(content_type_for_path("x.jpeg"), Some("image/jpeg"));
    assert_eq!(content_type_for_path("x.jpg"), Some("image/jpeg"));
    assert_eq!(content_type_for_path("x.webp"), Some("image/webp"));
    assert_eq!(content_type_for_path("x.txt"), None);
    assert_eq!(content_type_for_path(".html"), None);
    assert_eq!(content_type_for_path("html"), None);
    assert_eq!(content_type_for_path("dir.html/"), Some("text/html; charset=utf-8"));
}

#[test]
fn percent_decoding_checks_utf8_and_escapes() {
    assert_eq!(percent_decode("%E4%BD%A0"), Some("你".to_string()));
    assert_eq!(percent_decode("%ff"), None);
    assert_eq!(percent_decode("abc%4"), None);
    assert_eq!(percent_decode("%41%62"), Some("Ab".to_string()));
    assert_eq!(percent_decode(""), Some(String::new()));
}

#[test]
fn asset_requests_are_checked_before_reading() {
    let ok = asset_request(Some("dev.p"), "/dist/My%20Page.html").expect("ok");
    assert_eq!(ok.plugin_id, "dev.p");
    assert_eq!(ok.asset_path, "dist/My Page.html");
    assert_eq!(asset_request(None, "/a.html").unwrap_err(), AssetStatus::BadRequest);
    assert_eq!(asset_request(Some("p"), "/%GG").unwrap_err(), AssetStatus::BadRequest);
    assert_eq!(asset_request(Some("p"), "/%20").unwrap_err(), AssetStatus::BadRequest);
    assert_eq!(asset_request(Some("p"), "/a/%2E%2E/b").unwrap_err(), AssetStatus::Forbidden);
    assert_eq!(asset_request(Some("p"), "//etc").unwrap().asset_path, "etc");
    assert_eq!(asset_request(Some("p"), "/%2Fetc").unwrap_err(), AssetStatus::Forbidden);
}

#[test]
fn asset_roots_need_an_enabled_plugin() {
    assert_eq!(asset_root(None).unwrap_err(), AssetStatus::NotFound);
    assert!(asset_within_root("/plugins/p/dist/a.js", "/plugins/p"));
    assert!(asset_within_root("/plugins/p", "/plugins/p"));
    assert!(!asset_within_root("/plugins/pq/a.js", "/plugins/p"));
    assert!(!asset_within_root("/plugins", "/plugins/p"));
}

#[test]
fn decodes_app_id_from_uri() {
    assert_eq!(
        app_id_from_uri("litools-icon://app/path%3A%2FApplications%2FMy%20App.app"),
        Some("path:/Applications/My App.app".to_string())
    );
}

#[test]
fn decodes_bundle_identifier_from_uri() {
    assert_eq!(
        app_id_from_uri("litools-icon://app/com.apple.ActivityMonitor"),
        Some("com.apple.ActivityMonitor".to_string())
    );
}

#[test]
fn icon_rejects_invalid_percent_encoding() {
    assert_eq!(app_id_from_uri("litools-icon://app/%GG"), None);
}

#[test]
fn rejects_unknown_icon_resource_type() {
    assert_eq!(app_id_from_uri("litools-icon://file/com.apple.ActivityMonitor"), None);
}

#[test]
fn picks_the_icon_size_closest_to_the_target() {
    assert_eq!(closest_icon_index(&vec![], 128), None);
    assert_eq!(closest_icon_index(&vec![16, 32, 256, 512], 128), Some(1));
    assert_eq!(closest_icon_index(&vec![64, 192], 128), Some(0));
    assert_eq!(closest_icon_index(&vec![1024, 128, 128], 128), Some(1));
}

#[test]
fn converts_pixels_to_rgba() {
    assert_eq!(rgba_bytes(PixelFormat::RGBA, &[1, 2, 3, 4]), vec![1, 2, 3, 4]);
    assert_eq!(rgba_bytes(PixelFormat::RGBA, &[1, 2, 3, 4, 5, 6]), vec![1, 2, 3, 4, 5, 6]);
    assert_eq!(rgba_bytes(PixelFormat::RGB, &[1, 2, 3, 4, 5, 6, 7]), vec![1, 2, 3, 255, 4, 5, 6, 255]);
    assert_eq!(rgba_bytes(PixelFormat::Gray, &[9]), vec![9, 9, 9, 255]);
    assert_eq!(rgba_bytes(PixelFormat::GrayAlpha, &[9, 7, 1]), vec![9, 9, 9, 7]);
    assert_eq!(rgba_bytes(PixelFormat::Alpha, &[5, 6]), vec![255, 255, 255, 5, 255, 255, 255, 6]);
}

#[test]
fn prunes_oldest_icons_beyond_the_limits() {
    let order = oldest_first(&vec![30, 10, 20, 10]);
    assert_eq!(order, vec![1, 3, 2, 0]);
    // Only the file limit: two of four files go.
    assert_eq!(prune_count(&vec![1, 1, 1, 1], 2, 100), 2);
    // Bytes counted from all files: 40 > 25, so files go until 25 or less is counted.
    assert_eq!(prune_count(&vec![10, 10, 10, 10], 10, 25), 2);
    assert_eq!(prune_count(&vec![50, 50], 10, 10), 2);
    assert_eq!(prune_count(&vec![], 10, 10), 0);
    let summary = summary_from_entries(&vec![3, 4], 10, 100, None, 0, None);
    assert_eq!(summary.file_count, 2);
    assert_eq!(summary.total_bytes, 7);
    assert_eq!(summary.max_files, 10);
}
