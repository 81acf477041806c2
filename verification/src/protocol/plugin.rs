//! The `litools-plugin://` scheme: asset URLs of plugins, entry URLs, and the
//! checks a request for a plugin asset goes through before any file is read.
use crate::manifest::{InstalledPlugin, PluginManifest};
use crate::protocol::{percent_decode, percent_decoded};
use crate::text::{chars_of, concat, slice_chars, string_from_chars, str_eq, trimmed, is_blank};
use vstd::prelude::*;

verus! {

/// The handler of the plugin asset scheme.
#[derive(Clone, Copy, Debug, Default)]
pub struct PluginProtocol;

/// The URL scheme under which plugin assets are served.
pub const PLUGIN_PROTOCOL_SCHEME: &'static str = "litools-plugin";

/// `litools-plugin://{plugin_id}/{asset_path}`.
pub open spec fn plugin_asset_url_spec(plugin_id: Seq<char>, asset_path: Seq<char>) -> Seq<char> {
    PLUGIN_PROTOCOL_SCHEME@ + "://"@ + plugin_id + "/"@ + asset_path
}

/// The URL of one asset of a plugin.
pub fn plugin_asset_url(plugin_id: &str, asset_path: &str) -> (url: String)
    ensures
        url@ == plugin_asset_url_spec(plugin_id@, asset_path@),
{
    let a = concat(PLUGIN_PROTOCOL_SCHEME, "://");
    let b = concat(a.as_str(), plugin_id);
    let c = concat(b.as_str(), "/");
    concat(c.as_str(), asset_path)
}

// ── paths ───────────────────────────────────────────────────

/// A path that starts at the root.
pub open spec fn is_absolute_path(p: Seq<char>) -> bool {
    p.len() > 0 && p[0] == '/'
}

/// A `..` component starts at `i`.
pub open spec fn parent_component_at(p: Seq<char>, i: int) -> bool {
    &&& 0 <= i
    &&& i + 2 <= p.len()
    &&& p[i] == '.'
    &&& p[i + 1] == '.'
    &&& (i == 0 || p[i - 1] == '/')
    &&& (i + 2 == p.len() || p[i + 2] == '/')
}

/// Some `/`-separated component of the path is `..`.
pub open spec fn has_parent_component(p: Seq<char>) -> bool {
    exists|i: int| parent_component_at(p, i)
}

/// A relative path could leave the directory it is resolved against: it is
/// absolute, or it goes up with `..`.
pub open spec fn escapes_root(p: Seq<char>) -> bool {
    is_absolute_path(p) || has_parent_component(p)
}

/// Whether a relative path could leave the directory it is resolved against.
pub fn path_escapes_root(path: &str) -> (r: bool)
    ensures
        r == escapes_root(path@),
{
    let v = chars_of(path);
    let n = v.len();
    if n > 0 && v[0] == '/' {
        return true;
    }
    let mut i: usize = 0;
    while i < n
        invariant
            i <= n,
            v@ == path@,
            n == v@.len(),
            forall|j: int| 0 <= j < i ==> !parent_component_at(path@, j),
        decreases n - i,
    {
        if i + 1 < n && v[i] == '.' && v[i + 1] == '.' && (i == 0 || v[i - 1] == '/') && (i + 2 == n || v[i
            + 2] == '/') {
            assert(parent_component_at(path@, i as int));
            return true;
        }
        i = i + 1;
    }
    assert forall|j: int| !parent_component_at(path@, j) by {
        if 0 <= j && j >= n {
            assert(j + 2 > n);
        }
    }
    false
}

/// The URL of a plugin's entry file. The entry must stay inside the
/// plugin's directory: an absolute path or one with a `..` component is
/// refused with `invalid plugin entry: {entry}`.
pub fn plugin_entry_url(plugin_id: &str, entry: &str) -> (r: Result<String, String>)
    ensures
        escapes_root(entry@) ==> r is Err && r->Err_0@ == "invalid plugin entry: "@ + entry@,
        !escapes_root(entry@) ==> r is Ok && r->Ok_0@ == plugin_asset_url_spec(plugin_id@, entry@),
{
    if path_escapes_root(entry) {
        return Err(concat("invalid plugin entry: ", entry));
    }
    Ok(plugin_asset_url(plugin_id, entry))
}

/// The URL a plugin's views load: its dev server when the manifest has a
/// `development` section, else its entry file under the plugin scheme; an
/// error when it has neither, or when the entry leaves the plugin directory.
pub open spec fn entry_url_spec(plugin_id: Seq<char>, manifest: PluginManifest) -> Result<
    Seq<char>,
    Seq<char>,
> {
    match manifest.development {
        Some(dev) => Ok(dev.main@),
        None => match manifest.entry {
            None => Err(
                "plugin "@ + plugin_id + " has no entry and no development server configured"@,
            ),
            Some(entry) => if escapes_root(entry@) {
                Err("invalid plugin entry: "@ + entry@)
            } else {
                Ok(plugin_asset_url_spec(plugin_id, entry@))
            },
        },
    }
}

/// The URL a plugin's views load (see `entry_url_spec`).
pub fn resolve_entry_url(plugin_id: &str, manifest: &PluginManifest) -> (r: Result<String, String>)
    ensures
        match entry_url_spec(plugin_id@, *manifest) {
            Ok(u) => r is Ok && r->Ok_0@ == u,
            Err(m) => r is Err && r->Err_0@ == m,
        },
{
    match &manifest.development {
        Some(dev) => {
            return Ok(dev.main.clone());
        },
        None => {},
    }
    match &manifest.entry {
        None => {
            let a = concat("plugin ", plugin_id);
            Err(concat(a.as_str(), " has no entry and no development server configured"))
        },
        Some(entry) => plugin_entry_url(plugin_id, entry.as_str()),
    }
}

// ── content types ───────────────────────────────────────────

/// Length of `p[..n]` once trailing `/` are dropped.
pub open spec fn trimmed_len(p: Seq<char>, n: int) -> int
    decreases n,
{
    if n <= 0 {
        0
    } else if p[n - 1] == '/' {
        trimmed_len(p, n - 1)
    } else {
        n
    }
}

/// Index of the last `c` in `p[..n]`, or -1.
pub open spec fn last_before(p: Seq<char>, c: char, n: int) -> int
    decreases n,
{
    if n <= 0 {
        -1
    } else if p[n - 1] == c {
        n - 1
    } else {
        last_before(p, c, n - 1)
    }
}

/// The extension of a path's file name (its last component once trailing
/// `/` are dropped): what follows its last `.`, with none when the name has
/// no `.` but at its start, or is `..`.
pub open spec fn path_extension(p: Seq<char>) -> Option<Seq<char>> {
    let e = trimmed_len(p, p.len() as int);
    let s = last_before(p, '/', e) + 1;
    let d = last_before(p, '.', e);
    if d <= s || (e - s == 2 && p[s] == '.' && p[s + 1] == '.') {
        None
    } else {
        Some(p.subrange(d + 1, e))
    }
}

/// ASCII letters in lower case, other characters unchanged.
pub open spec fn ascii_lower(c: char) -> char {
    if 'A' <= c <= 'Z' {
        ((c as u32) + 32) as char
    } else {
        c
    }
}

/// The content type served for a (lower-case) file extension.
pub open spec fn content_type_for_extension(ext: Seq<char>) -> Option<Seq<char>> {
    if ext == "html"@ {
        Some("text/html; charset=utf-8"@)
    } else if ext == "js"@ || ext == "mjs"@ {
        Some("text/javascript; charset=utf-8"@)
    } else if ext == "css"@ {
        Some("text/css; charset=utf-8"@)
    } else if ext == "json"@ {
        Some("application/json"@)
    } else if ext == "svg"@ {
        Some("image/svg+xml"@)
    } else if ext == "png"@ {
        Some("image/png"@)
    } else if ext == "jpg"@ || ext == "jpeg"@ {
        Some("image/jpeg"@)
    } else if ext == "webp"@ {
        Some("image/webp"@)
    } else {
        None
    }
}

/// The content type of a path: that of its extension, compared without
/// regard to ASCII case.
pub open spec fn content_type_for_path_spec(p: Seq<char>) -> Option<Seq<char>> {
    match path_extension(p) {
        Some(ext) => content_type_for_extension(ext.map_values(|c: char| ascii_lower(c))),
        None => None,
    }
}

fn to_ascii_lower(c: char) -> (r: char)
    ensures
        r == ascii_lower(c),
{
    if 'A' <= c && c <= 'Z' {
        ((c as u8) + 32) as char
    } else {
        c
    }
}

/// The content type a plugin asset is served with; `None` for a type that is
/// not served.
pub fn content_type_for_path(path: &str) -> (r: Option<&'static str>)
    ensures
        match r {
            Some(t) => content_type_for_path_spec(path@) == Some(t@),
            None => content_type_for_path_spec(path@) is None,
        },
{
    let v = chars_of(path);
    let ghost p = path@;
    let n = v.len();
    let mut e: usize = n;
    while e > 0 && v[e - 1] == '/'
        invariant
            v@ == p,
            n == p.len(),
            e <= n,
            trimmed_len(p, n as int) == trimmed_len(p, e as int),
        decreases e,
    {
        e = e - 1;
    }
    let mut k: usize = e;
    while k > 0 && v[k - 1] != '/'
        invariant
            v@ == p,
            e <= n,
            n == p.len(),
            k <= e,
            last_before(p, '/', e as int) == last_before(p, '/', k as int),
        decreases k,
    {
        k = k - 1;
    }
    let mut d: usize = e;
    while d > 0 && v[d - 1] != '.'
        invariant
            v@ == p,
            e <= n,
            n == p.len(),
            d <= e,
            last_before(p, '.', e as int) == last_before(p, '.', d as int),
        decreases d,
    {
        d = d - 1;
    }
    assert(trimmed_len(p, n as int) == e);
    assert(last_before(p, '/', e as int) + 1 == k);
    assert(last_before(p, '.', e as int) == d - 1);
    if d <= k + 1 || (e - k == 2 && v[k] == '.' && v[k + 1] == '.') {
        return None;
    }
    let ghost ext = p.subrange(d as int, e as int);
    let mut lower: Vec<char> = Vec::new();
    let mut i: usize = d;
    while i < e
        invariant
            v@ == p,
            e <= n,
            n == p.len(),
            d <= i <= e,
            ext == p.subrange(d as int, e as int),
            lower@ == ext.take(i - d).map_values(|c: char| ascii_lower(c)),
        decreases e - i,
    {
        lower.push(to_ascii_lower(v[i]));
        assert(ext.take(i + 1 - d) =~= ext.take(i - d).push(v@[i as int]));
        assert(lower@ =~= ext.take(i + 1 - d).map_values(|c: char| ascii_lower(c)));
        i = i + 1;
    }
    assert(ext.take(e - d) =~= ext);
    assert(path_extension(p) == Some(ext));
    let xs = string_from_chars(&lower);
    let x = xs.as_str();
    assert(x@ == ext.map_values(|c: char| ascii_lower(c)));
    if str_eq(x, "html") {
        Some("text/html; charset=utf-8")
    } else if str_eq(x, "js") || str_eq(x, "mjs") {
        Some("text/javascript; charset=utf-8")
    } else if str_eq(x, "css") {
        Some("text/css; charset=utf-8")
    } else if str_eq(x, "json") {
        Some("application/json")
    } else if str_eq(x, "svg") {
        Some("image/svg+xml")
    } else if str_eq(x, "png") {
        Some("image/png")
    } else if str_eq(x, "jpg") || str_eq(x, "jpeg") {
        Some("image/jpeg")
    } else if str_eq(x, "webp") {
        Some("image/webp")
    } else {
        None
    }
}

// ── asset requests ──────────────────────────────────────────

/// Why a request for a plugin asset is refused; the HTTP status it is
/// answered with.
#[derive(Clone, Copy, Debug, PartialEq, Eq, Structural)]
pub enum AssetStatus {
    BadRequest,
    Forbidden,
    NotFound,
}

/// A request for a plugin asset that passed the checks on its URL.
#[derive(Clone, Debug)]
pub struct AssetRequest {
    pub plugin_id: String,
    pub asset_path: String,
}

/// `s` without its leading `/`.
pub open spec fn trim_leading_slashes(s: Seq<char>) -> Seq<char>
    decreases s.len(),
{
    if s.len() > 0 && s[0] == '/' {
        trim_leading_slashes(s.drop_first())
    } else {
        s
    }
}

/// The checks on the URL of a plugin asset request, given the URL's
/// authority (the plugin id) and path: no authority, an undecodable path or
/// a blank one is a bad request; a path that could leave the plugin's
/// directory is forbidden.
pub open spec fn asset_request_outcome(authority: Option<Seq<char>>, path: Seq<char>) -> Result<
    (Seq<char>, Seq<char>),
    AssetStatus,
> {
    match authority {
        None => Err(AssetStatus::BadRequest),
        Some(id) => match percent_decoded(trim_leading_slashes(path)) {
            None => Err(AssetStatus::BadRequest),
            Some(p) => if trimmed(p).len() == 0 {
                Err(AssetStatus::BadRequest)
            } else if escapes_root(p) {
                Err(AssetStatus::Forbidden)
            } else {
                Ok((id, p))
            },
        },
    }
}

/// Checks the URL of a plugin asset request and decodes the asset path.
pub fn asset_request(authority: Option<&str>, path: &str) -> (r: Result<AssetRequest, AssetStatus>)
    ensures
        match r {
            Ok(req) => asset_request_outcome(
                match authority {
                    Some(a) => Some(a@),
                    None => None,
                },
                path@,
            ) == Ok::<(Seq<char>, Seq<char>), AssetStatus>((req.plugin_id@, req.asset_path@)),
            Err(st) => asset_request_outcome(
                match authority {
                    Some(a) => Some(a@),
                    None => None,
                },
                path@,
            ) == Err::<(Seq<char>, Seq<char>), AssetStatus>(st),
        },
{
    let id = match authority {
        None => {
            return Err(AssetStatus::BadRequest);
        },
        Some(a) => a,
    };
    let v = chars_of(path);
    let mut i: usize = 0;
    assert(v@.skip(0) =~= v@);
    while i < v.len() && v[i] == '/'
        invariant
            v@ == path@,
            i <= v@.len(),
            trim_leading_slashes(path@) == trim_leading_slashes(v@.skip(i as int)),
        decreases v.len() - i,
    {
        assert(v@.skip(i as int).drop_first() =~= v@.skip(i + 1));
        i = i + 1;
    }
    let rest = slice_chars(&v, i, v.len());
    assert(rest@ =~= v@.skip(i as int));
    let rest = string_from_chars(&rest);
    let decoded = match percent_decode(rest.as_str()) {
        None => {
            return Err(AssetStatus::BadRequest);
        },
        Some(d) => d,
    };
    if is_blank(decoded.as_str()) {
        return Err(AssetStatus::BadRequest);
    }
    if path_escapes_root(decoded.as_str()) {
        return Err(AssetStatus::Forbidden);
    }
    Ok(AssetRequest { plugin_id: id.to_owned(), asset_path: decoded })
}

/// The directory a plugin's assets are served from: a plugin that is not
/// installed is not found; a disabled one is forbidden.
pub fn asset_root(plugin: Option<&InstalledPlugin>) -> (r: Result<String, AssetStatus>)
    ensures
        plugin is None ==> r == Err::<String, AssetStatus>(AssetStatus::NotFound),
        plugin is Some && !plugin->0.enabled ==> r == Err::<String, AssetStatus>(
            AssetStatus::Forbidden,
        ),
        plugin is Some && plugin->0.enabled ==> r is Ok && r->Ok_0@ == plugin->0.path@,
{
    match plugin {
        None => Err(AssetStatus::NotFound),
        Some(p) => if !p.enabled {
            Err(AssetStatus::Forbidden)
        } else {
            Ok(p.path.clone())
        },
    }
}

/// `asset` lies under `root`, component by component: the two are equal, or
/// `root` is followed in `asset` by a `/`. On canonical paths this is how
/// `Path::starts_with` compares them.
pub open spec fn within_root(asset: Seq<char>, root: Seq<char>) -> bool {
    ||| asset == root
    ||| root.len() < asset.len() && asset.take(root.len() as int) == root && (
    (root.len() > 0 && root.last() == '/') || asset[root.len() as int] == '/')
}

/// Whether a canonical asset path lies under the plugin's canonical root.
pub fn asset_within_root(asset: &str, root: &str) -> (r: bool)
    ensures
        r == within_root(asset@, root@),
{
    let a = chars_of(asset);
    let b = chars_of(root);
    if a.len() == b.len() {
        return str_eq(asset, root);
    }
    if b.len() > a.len() {
        return false;
    }
    let mut i: usize = 0;
    while i < b.len()
        invariant
            a@ == asset@,
            b@ == root@,
            b.len() < a.len(),
            i <= b.len(),
            forall|j: int| 0 <= j < i ==> a@[j] == b@[j],
        decreases b.len() - i,
    {
        if a[i] != b[i] {
            assert(a@.take(b@.len() as int)[i as int] != b@[i as int]);
            return false;
        }
        i = i + 1;
    }
    assert(a@.take(b@.len() as int) =~= b@);
    (b.len() > 0 && b[b.len() - 1] == '/') || a[b.len()] == '/'
}

} // verus!
