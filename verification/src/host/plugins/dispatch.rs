//! Routing of runtime API calls from plugin views: which runtime is calling,
//! whether it may call the method, what the parameters must be, and what the
//! host is to do. The host carries out the returned action.
use crate::host::plugins::runtime::capability::{capability_permission, capability_trusted_only};
use crate::host::plugins::runtime::method_registry::{method_info, MethodDescriptor, MethodId};
use crate::host::plugins::runtime::model::{
    PermissionQueryResult, PermissionQueryState, PluginRuntimeContext, PluginRuntimeError,
    PluginRuntimeErrorCode, RuntimeContextView,
};
use crate::host::plugins::runtime::permissions::{can_call_method, can_call_spec, query_permission};
use crate::host::plugins::runtime::registry::{surface_pos, PluginRuntimeRegistry, RuntimeEntries};
use crate::text::{clone_strings, concat, is_blank, opt_text, owned, str_eq, trimmed, views};
use vstd::prelude::*;
use vstd::utf8::encode_utf8;

verus! {

/// Longest storage key, in bytes.
pub const MAX_STORAGE_KEY_LEN: usize = 256;

/// Longest stored value, in bytes of its JSON text.
pub const MAX_STORAGE_VALUE_LEN: usize = 262144;

/// Longest view title, in bytes.
pub const MAX_TITLE_LEN: usize = 128;

/// One parameter of a call, as far as routing reads it.
#[derive(Clone, Debug)]
pub struct ParamValue {
    /// The value, when it is a JSON string.
    pub text: Option<String>,
    /// The value, when it is a JSON number that is a `u64`.
    pub count: Option<u64>,
    /// The string items of the value, when it is a JSON array.
    pub strings: Option<Vec<String>>,
    /// The value written as JSON.
    pub json: String,
}

pub struct ParamView {
    pub text: Option<Seq<char>>,
    pub count: Option<u64>,
    pub strings: Option<Seq<Seq<char>>>,
    pub json: Seq<char>,
}

impl View for ParamValue {
    type V = ParamView;

    open spec fn view(&self) -> ParamView {
        ParamView {
            text: opt_text(self.text),
            count: self.count,
            strings: match self.strings {
                Some(v) => Some(views(v@)),
                None => None,
            },
            json: self.json@,
        }
    }
}

/// The named parameters of a call (the members of its parameter object).
#[derive(Clone, Debug)]
pub struct CallParams {
    pub entries: Vec<(String, ParamValue)>,
}

pub type ParamsView = Seq<(Seq<char>, ParamView)>;

impl View for CallParams {
    type V = ParamsView;

    open spec fn view(&self) -> ParamsView {
        self.entries@.map_values(|e: (String, ParamValue)| (e.0@, e.1@))
    }
}

/// The first parameter named `key`.
pub open spec fn param_of(ps: ParamsView, key: Seq<char>) -> Option<ParamView>
    decreases ps.len(),
{
    if ps.len() == 0 {
        None
    } else if ps[0].0 == key {
        Some(ps[0].1)
    } else {
        param_of(ps.drop_first(), key)
    }
}

/// The parameter named `key`.
pub fn param<'a>(params: &'a CallParams, key: &str) -> (r: Option<&'a ParamValue>)
    ensures
        match r {
            Some(v) => param_of(params@, key@) == Some(v@),
            None => param_of(params@, key@) is None,
        },
{
    let mut i: usize = 0;
    assert(params@.skip(0) =~= params@);
    while i < params.entries.len()
        invariant
            i <= params.entries@.len(),
            params@.len() == params.entries@.len(),
            param_of(params@, key@) == param_of(params@.skip(i as int), key@),
        decreases params.entries.len() - i,
    {
        assert(params@.skip(i as int)[0] == params@[i as int]);
        if str_eq(params.entries[i].0.as_str(), key) {
            return Some(&params.entries[i].1);
        }
        assert(params@.skip(i as int).drop_first() =~= params@.skip(i + 1));
        i = i + 1;
    }
    None
}

/// An error as code and message.
pub type ErrorView = (PluginRuntimeErrorCode, Seq<char>);

pub open spec fn invalid(msg: Seq<char>) -> ErrorView {
    (PluginRuntimeErrorCode::InvalidParams, msg)
}

pub open spec fn denied(msg: Seq<char>) -> ErrorView {
    (PluginRuntimeErrorCode::PermissionDenied, msg)
}

pub open spec fn error_view(e: PluginRuntimeError) -> ErrorView {
    (e.code, e.message@)
}

/// A string parameter that must be present: `{key} must be a string`
/// otherwise.
pub open spec fn required_text(ps: ParamsView, key: Seq<char>) -> Result<Seq<char>, ErrorView> {
    match param_of(ps, key) {
        Some(v) => match v.text {
            Some(t) => Ok(t),
            None => Err(invalid(key + " must be a string"@)),
        },
        None => Err(invalid(key + " must be a string"@)),
    }
}

/// A required string parameter.
pub fn required_string_param(params: &CallParams, key: &str) -> (r: Result<String, PluginRuntimeError>)
    ensures
        match r {
            Ok(t) => required_text(params@, key@) == Ok::<Seq<char>, ErrorView>(t@),
            Err(e) => required_text(params@, key@) == Err::<Seq<char>, ErrorView>(error_view(e)),
        },
{
    match param(params, key) {
        Some(v) => match &v.text {
            Some(t) => Ok(t.clone()),
            None => Err(PluginRuntimeError::invalid_params(concat(key, " must be a string"))),
        },
        None => Err(PluginRuntimeError::invalid_params(concat(key, " must be a string"))),
    }
}

/// Unicode control characters (general category Cc).
pub open spec fn is_control(c: char) -> bool {
    let u = c as u32;
    u <= 0x1f || (0x7f <= u && u <= 0x9f)
}

/// The checks on a storage key: not empty, at most 256 bytes, no control
/// characters.
pub open spec fn storage_key_check(k: Seq<char>) -> Result<Seq<char>, ErrorView> {
    if k.len() == 0 {
        Err(invalid("storage key must not be empty"@))
    } else if encode_utf8(k).len() > MAX_STORAGE_KEY_LEN {
        Err(invalid("storage key exceeds 256 bytes"@))
    } else if exists|i: int| 0 <= i < k.len() && is_control(#[trigger] k[i]) {
        Err(invalid("storage key must not contain control characters"@))
    } else {
        Ok(k)
    }
}

/// The `key` parameter of a storage call.
pub open spec fn storage_key(ps: ParamsView) -> Result<Seq<char>, ErrorView> {
    match required_text(ps, "key"@) {
        Ok(k) => storage_key_check(k),
        Err(e) => Err(e),
    }
}

fn char_is_control(c: char) -> (r: bool)
    ensures
        r == is_control(c),
{
    let u = c as u32;
    u <= 0x1f || (0x7f <= u && u <= 0x9f)
}

/// The `key` parameter of a storage call, checked.
pub fn storage_key_param(params: &CallParams) -> (r: Result<String, PluginRuntimeError>)
    ensures
        match r {
            Ok(k) => storage_key(params@) == Ok::<Seq<char>, ErrorView>(k@),
            Err(e) => storage_key(params@) == Err::<Seq<char>, ErrorView>(error_view(e)),
        },
{
    let key = match required_string_param(params, "key") {
        Ok(k) => k,
        Err(e) => {
            return Err(e);
        },
    };
    if key.as_str().is_empty() {
        return Err(PluginRuntimeError::invalid_params(owned("storage key must not be empty")));
    }
    if key.as_str().as_bytes().len() > MAX_STORAGE_KEY_LEN {
        return Err(PluginRuntimeError::invalid_params(owned("storage key exceeds 256 bytes")));
    }
    let mut found = false;
    for c in it: key.as_str().chars()
        invariant
            found == (exists|i: int| 0 <= i < it.index() && is_control(#[trigger] key@[i])),
            it.seq() == key@,
    {
        if char_is_control(c) {
            assert(is_control(key@[it.index() as int]));
            found = true;
        }
    }
    if found {
        return Err(
            PluginRuntimeError::invalid_params(
                owned("storage key must not contain control characters"),
            ),
        );
    }
    Ok(key)
}

/// The checks on a view title: not blank, at most 128 bytes.
pub open spec fn title_check(t: Seq<char>) -> Result<(), ErrorView> {
    if trimmed(t).len() == 0 {
        Err(invalid("title must not be empty"@))
    } else if encode_utf8(t).len() > MAX_TITLE_LEN {
        Err(invalid("title must not exceed 128 bytes"@))
    } else {
        Ok(())
    }
}

/// Checks a view title.
pub fn validate_title(title: &str) -> (r: Result<(), PluginRuntimeError>)
    ensures
        match r {
            Ok(_) => title_check(title@) == Ok::<(), ErrorView>(()),
            Err(e) => title_check(title@) == Err::<(), ErrorView>(error_view(e)),
        },
{
    if is_blank(title) {
        return Err(PluginRuntimeError::invalid_params(owned("title must not be empty")));
    }
    if title.as_bytes().len() > MAX_TITLE_LEN {
        return Err(PluginRuntimeError::invalid_params(owned("title must not exceed 128 bytes")));
    }
    Ok(())
}

// ── routing ─────────────────────────────────────────────────

/// What the host is to do for a call that passed the checks.
#[derive(Clone, Debug)]
pub enum ViewCallAction {
    /// Mark the runtime ready and answer with its info.
    MarkReady { runtime_id: String },
    /// Answer with the runtime's info.
    ReportInfo { runtime_id: String },
    /// Answer with this permission query result.
    ReportPermission(PermissionQueryResult),
    /// Close the runtime.
    Close { runtime_id: String },
    /// Retitle the runtime.
    SetTitle { runtime_id: String, title: String },
    /// Show a toast for the plugin.
    Toast { plugin_id: String, message: String },
    StorageGet { plugin_id: String, key: String },
    StorageSet { plugin_id: String, key: String, value_json: String },
    StorageRemove { plugin_id: String, key: String },
    StorageClear { plugin_id: String },
    SettingsGet,
    SettingsUpdate,
    DiagnosticsGet,
    PluginsList,
    /// Add the commands given in the `commands` parameter.
    CommandsAdd,
    /// Remove the runtime commands with these ids.
    CommandsRemove { ids: Vec<String> },
    /// Replace the runtime commands with those in the `commands` parameter.
    CommandsReplace,
    /// Update the command with this id from the `cmd` parameter.
    CommandsUpdate { id: String },
    /// Register (replacing any earlier one) a search provider served by the
    /// calling webview.
    RegisterSearchProvider {
        plugin_id: String,
        runtime_id: String,
        provider_id: String,
        webview_label: String,
        timeout_ms: u64,
    },
    UnregisterSearchProvider { provider_id: String },
}

/// A `ViewCallAction` with its strings taken by their characters.
pub enum ViewCallPlan {
    MarkReady { runtime_id: Seq<char> },
    ReportInfo { runtime_id: Seq<char> },
    ReportPermission { permission: Seq<char>, state: PermissionQueryState },
    Close { runtime_id: Seq<char> },
    SetTitle { runtime_id: Seq<char>, title: Seq<char> },
    Toast { plugin_id: Seq<char>, message: Seq<char> },
    StorageGet { plugin_id: Seq<char>, key: Seq<char> },
    StorageSet { plugin_id: Seq<char>, key: Seq<char>, value_json: Seq<char> },
    StorageRemove { plugin_id: Seq<char>, key: Seq<char> },
    StorageClear { plugin_id: Seq<char> },
    SettingsGet,
    SettingsUpdate,
    DiagnosticsGet,
    PluginsList,
    CommandsAdd,
    CommandsRemove { ids: Seq<Seq<char>> },
    CommandsReplace,
    CommandsUpdate { id: Seq<char> },
    RegisterSearchProvider {
        plugin_id: Seq<char>,
        runtime_id: Seq<char>,
        provider_id: Seq<char>,
        webview_label: Seq<char>,
        timeout_ms: u64,
    },
    UnregisterSearchProvider { provider_id: Seq<char> },
}

impl View for ViewCallAction {
    type V = ViewCallPlan;

    open spec fn view(&self) -> ViewCallPlan {
        match self {
            ViewCallAction::MarkReady { runtime_id } => ViewCallPlan::MarkReady {
                runtime_id: runtime_id@,
            },
            ViewCallAction::ReportInfo { runtime_id } => ViewCallPlan::ReportInfo {
                runtime_id: runtime_id@,
            },
            ViewCallAction::ReportPermission(q) => ViewCallPlan::ReportPermission {
                permission: q.permission@,
                state: q.state,
            },
            ViewCallAction::Close { runtime_id } => ViewCallPlan::Close { runtime_id: runtime_id@ },
            ViewCallAction::SetTitle { runtime_id, title } => ViewCallPlan::SetTitle {
                runtime_id: runtime_id@,
                title: title@,
            },
            ViewCallAction::Toast { plugin_id, message } => ViewCallPlan::Toast {
                plugin_id: plugin_id@,
                message: message@,
            },
            ViewCallAction::StorageGet { plugin_id, key } => ViewCallPlan::StorageGet {
                plugin_id: plugin_id@,
                key: key@,
            },
            ViewCallAction::StorageSet { plugin_id, key, value_json } => ViewCallPlan::StorageSet {
                plugin_id: plugin_id@,
                key: key@,
                value_json: value_json@,
            },
            ViewCallAction::StorageRemove { plugin_id, key } => ViewCallPlan::StorageRemove {
                plugin_id: plugin_id@,
                key: key@,
            },
            ViewCallAction::StorageClear { plugin_id } => ViewCallPlan::StorageClear {
                plugin_id: plugin_id@,
            },
            ViewCallAction::SettingsGet => ViewCallPlan::SettingsGet,
            ViewCallAction::SettingsUpdate => ViewCallPlan::SettingsUpdate,
            ViewCallAction::DiagnosticsGet => ViewCallPlan::DiagnosticsGet,
            ViewCallAction::PluginsList => ViewCallPlan::PluginsList,
            ViewCallAction::CommandsAdd => ViewCallPlan::CommandsAdd,
            ViewCallAction::CommandsRemove { ids } => ViewCallPlan::CommandsRemove {
                ids: views(ids@),
            },
            ViewCallAction::CommandsReplace => ViewCallPlan::CommandsReplace,
            ViewCallAction::CommandsUpdate { id } => ViewCallPlan::CommandsUpdate { id: id@ },
            ViewCallAction::RegisterSearchProvider {
                plugin_id,
                runtime_id,
                provider_id,
                webview_label,
                timeout_ms,
            } => ViewCallPlan::RegisterSearchProvider {
                plugin_id: plugin_id@,
                runtime_id: runtime_id@,
                provider_id: provider_id@,
                webview_label: webview_label@,
                timeout_ms: *timeout_ms,
            },
            ViewCallAction::UnregisterSearchProvider { provider_id } =>
                ViewCallPlan::UnregisterSearchProvider { provider_id: provider_id@ },
        }
    }
}

/// Whether a runtime, taken by its view, may call `method`.
pub open spec fn can_call_view(c: RuntimeContextView, method: Seq<char>) -> bool {
    match method_info(method) {
        None => false,
        Some(info) => {
            if capability_trusted_only(info.capability) && !c.trusted {
                false
            } else {
                match capability_permission(info.capability) {
                    None => true,
                    Some(p) => c.permissions.contains(p),
                }
            }
        },
    }
}

/// The runtime shown on the surface whose webview has the label.
pub open spec fn surface_runtime(rs: RuntimeEntries, label: Seq<char>) -> Option<RuntimeContextView> {
    if surface_pos(rs, label) < rs.len() {
        Some(rs[surface_pos(rs, label) as int].1)
    } else {
        None
    }
}

/// Search providers wait this long when a call gives no `timeout`.
pub const DEFAULT_SEARCH_TIMEOUT_MS: u64 = 300;

/// What a permitted call of a known method comes to.
pub open spec fn method_plan(
    c: RuntimeContextView,
    label: Seq<char>,
    method: Seq<char>,
    id: MethodId,
    ps: ParamsView,
) -> Result<ViewCallPlan, ErrorView> {
    match id {
        MethodId::RuntimeReady => Ok(ViewCallPlan::MarkReady { runtime_id: c.id }),
        MethodId::RuntimeGetInfo => Ok(ViewCallPlan::ReportInfo { runtime_id: c.id }),
        MethodId::RuntimeQueryPermission => match required_text(ps, "permission"@) {
            Ok(p) => Ok(
                ViewCallPlan::ReportPermission {
                    permission: p,
                    state: if c.permissions.contains(p) {
                        PermissionQueryState::Granted
                    } else {
                        PermissionQueryState::Denied
                    },
                },
            ),
            Err(e) => Err(e),
        },
        MethodId::UIClose => Ok(ViewCallPlan::Close { runtime_id: c.id }),
        MethodId::UISetTitle => match required_text(ps, "title"@) {
            Ok(t) => match title_check(t) {
                Ok(_) => Ok(ViewCallPlan::SetTitle { runtime_id: c.id, title: t }),
                Err(e) => Err(e),
            },
            Err(e) => Err(e),
        },
        MethodId::UIToast => match required_text(ps, "message"@) {
            Ok(m) => Ok(ViewCallPlan::Toast { plugin_id: c.plugin_id, message: m }),
            Err(e) => Err(e),
        },
        MethodId::StorageGet => match storage_key(ps) {
            Ok(k) => Ok(ViewCallPlan::StorageGet { plugin_id: c.plugin_id, key: k }),
            Err(e) => Err(e),
        },
        MethodId::StorageSet => match storage_key(ps) {
            Ok(k) => match param_of(ps, "value"@) {
                None => Err(invalid("storage.set requires value"@)),
                Some(v) => if encode_utf8(v.json).len() > MAX_STORAGE_VALUE_LEN {
                    Err(invalid("storage value exceeds 262144 bytes"@))
                } else {
                    Ok(ViewCallPlan::StorageSet { plugin_id: c.plugin_id, key: k, value_json: v.json })
                },
            },
            Err(e) => Err(e),
        },
        MethodId::StorageRemove => match storage_key(ps) {
            Ok(k) => Ok(ViewCallPlan::StorageRemove { plugin_id: c.plugin_id, key: k }),
            Err(e) => Err(e),
        },
        MethodId::StorageClear => Ok(ViewCallPlan::StorageClear { plugin_id: c.plugin_id }),
        MethodId::SettingsGet => Ok(ViewCallPlan::SettingsGet),
        MethodId::SettingsUpdate => Ok(ViewCallPlan::SettingsUpdate),
        MethodId::DiagnosticsGet => Ok(ViewCallPlan::DiagnosticsGet),
        MethodId::HostPluginsList => Ok(ViewCallPlan::PluginsList),
        MethodId::CommandsAdd => Ok(ViewCallPlan::CommandsAdd),
        MethodId::CommandsRemove => Ok(
            ViewCallPlan::CommandsRemove {
                ids: match param_of(ps, "ids"@) {
                    Some(v) => match v.strings {
                        Some(ids) => ids,
                        None => Seq::empty(),
                    },
                    None => Seq::empty(),
                },
            },
        ),
        MethodId::CommandsReplace => Ok(ViewCallPlan::CommandsReplace),
        MethodId::CommandsUpdate => match required_text(ps, "id"@) {
            Ok(i) => Ok(ViewCallPlan::CommandsUpdate { id: i }),
            Err(e) => Err(e),
        },
        MethodId::SearchRegisterProvider => match required_text(ps, "id"@) {
            Ok(p) => Ok(
                ViewCallPlan::RegisterSearchProvider {
                    plugin_id: c.plugin_id,
                    runtime_id: c.id,
                    provider_id: c.plugin_id + "."@ + p,
                    webview_label: label,
                    timeout_ms: match param_of(ps, "timeout"@) {
                        Some(v) => match v.count {
                            Some(n) => n,
                            None => DEFAULT_SEARCH_TIMEOUT_MS,
                        },
                        None => DEFAULT_SEARCH_TIMEOUT_MS,
                    },
                },
            ),
            Err(e) => Err(e),
        },
        MethodId::SearchUnregisterProvider => match required_text(ps, "id"@) {
            Ok(p) => Ok(
                ViewCallPlan::UnregisterSearchProvider { provider_id: c.plugin_id + "."@ + p },
            ),
            Err(e) => Err(e),
        },
        _ => Err(denied("unknown plugin runtime method: "@ + method)),
    }
}

/// The search provider a plan concerns, for the plans that register or
/// unregister one.
pub open spec fn planned_provider(p: Result<ViewCallPlan, ErrorView>) -> Option<Seq<char>> {
    match p {
        Ok(ViewCallPlan::RegisterSearchProvider { provider_id, .. }) => Some(provider_id),
        Ok(ViewCallPlan::UnregisterSearchProvider { provider_id }) => Some(provider_id),
        _ => None,
    }
}

/// `search.unregisterProvider` with an id takes away exactly the provider
/// that `search.registerProvider` with the same id set up for the same
/// runtime: the two calls succeed on the same parameters and name the same
/// provider, and that provider is namespaced by the calling plugin (its id
/// is the plugin's id, a dot, and the id given), so one plugin's calls never
/// name another plugin's provider.
pub proof fn law_unregister_names_the_registered_provider(
    c: RuntimeContextView,
    label: Seq<char>,
    ps: ParamsView,
)
    ensures
        ({
            let reg = method_plan(c, label, "search.registerProvider"@, MethodId::SearchRegisterProvider, ps);
            let unreg = method_plan(
                c,
                label,
                "search.unregisterProvider"@,
                MethodId::SearchUnregisterProvider,
                ps,
            );
            &&& (reg is Ok <==> unreg is Ok)
            &&& (reg is Ok ==> planned_provider(reg) is Some)
            &&& planned_provider(reg) == planned_provider(unreg)
            &&& (reg is Ok ==> exists|given: Seq<char>|
                #[trigger] required_text(ps, "id"@) == Ok::<Seq<char>, ErrorView>(given)
                    && planned_provider(reg) == Some(c.plugin_id + "."@ + given))
        }),
{
    let reg = method_plan(c, label, "search.registerProvider"@, MethodId::SearchRegisterProvider, ps);
    if reg is Ok {
        let given = required_text(ps, "id"@)->Ok_0;
        assert(required_text(ps, "id"@) == Ok::<Seq<char>, ErrorView>(given));
    }
}

/// What a call of `method` from the webview labelled `label` comes to: a
/// webview without a runtime, a method the runtime may not call, and a
/// method outside the table are denied; otherwise the method's plan.
pub open spec fn view_call_plan(
    runtime: Option<RuntimeContextView>,
    label: Seq<char>,
    method: Seq<char>,
    ps: ParamsView,
) -> Result<ViewCallPlan, ErrorView> {
    match runtime {
        None => Err(denied("not a registered plugin runtime: "@ + label)),
        Some(c) => if !can_call_view(c, method) {
            Err(denied("plugin "@ + c.plugin_id + " is not allowed to call "@ + method))
        } else {
            match method_info(method) {
                None => Err(denied("unknown plugin runtime method: "@ + method)),
                Some(info) => method_plan(c, label, method, info.id, ps),
            }
        },
    }
}

fn invalid_params(msg: &str) -> (e: PluginRuntimeError)
    ensures
        error_view(e) == invalid(msg@),
{
    PluginRuntimeError::invalid_params(owned(msg))
}

fn plugin_dot(plugin_id: &str, id: &str) -> (r: String)
    ensures
        r@ == plugin_id@ + "."@ + id@,
{
    let a = concat(plugin_id, ".");
    concat(a.as_str(), id)
}

/// The action for a permitted call of a known method.
fn plan_method(
    c: &PluginRuntimeContext,
    label: &str,
    method: &str,
    id: MethodId,
    params: &CallParams,
) -> (r: Result<ViewCallAction, PluginRuntimeError>)
    ensures
        match r {
            Ok(a) => method_plan(c@, label@, method@, id, params@) == Ok::<ViewCallPlan, ErrorView>(
                a@,
            ),
            Err(e) => method_plan(c@, label@, method@, id, params@) == Err::<
                ViewCallPlan,
                ErrorView,
            >(error_view(e)),
        },
{
    match id {
        MethodId::RuntimeReady => Ok(ViewCallAction::MarkReady { runtime_id: c.id.clone() }),
        MethodId::RuntimeGetInfo => Ok(ViewCallAction::ReportInfo { runtime_id: c.id.clone() }),
        MethodId::RuntimeQueryPermission => {
            let permission = required_string_param(params, "permission")?;
            let state = query_permission(c, permission.as_str());
            Ok(ViewCallAction::ReportPermission(PermissionQueryResult { permission, state }))
        },
        MethodId::UIClose => Ok(ViewCallAction::Close { runtime_id: c.id.clone() }),
        MethodId::UISetTitle => {
            let title = required_string_param(params, "title")?;
            validate_title(title.as_str())?;
            Ok(ViewCallAction::SetTitle { runtime_id: c.id.clone(), title })
        },
        MethodId::UIToast => {
            let message = required_string_param(params, "message")?;
            Ok(ViewCallAction::Toast { plugin_id: c.plugin_id.clone(), message })
        },
        MethodId::StorageGet => {
            let key = storage_key_param(params)?;
            Ok(ViewCallAction::StorageGet { plugin_id: c.plugin_id.clone(), key })
        },
        MethodId::StorageSet => {
            let key = storage_key_param(params)?;
            let value = match param(params, "value") {
                Some(v) => v,
                None => {
                    return Err(invalid_params("storage.set requires value"));
                },
            };
            if value.json.as_str().as_bytes().len() > MAX_STORAGE_VALUE_LEN {
                return Err(invalid_params("storage value exceeds 262144 bytes"));
            }
            Ok(
                ViewCallAction::StorageSet {
                    plugin_id: c.plugin_id.clone(),
                    key,
                    value_json: value.json.clone(),
                },
            )
        },
        MethodId::StorageRemove => {
            let key = storage_key_param(params)?;
            Ok(ViewCallAction::StorageRemove { plugin_id: c.plugin_id.clone(), key })
        },
        MethodId::StorageClear => Ok(ViewCallAction::StorageClear { plugin_id: c.plugin_id.clone() }),
        MethodId::SettingsGet => Ok(ViewCallAction::SettingsGet),
        MethodId::SettingsUpdate => Ok(ViewCallAction::SettingsUpdate),
        MethodId::DiagnosticsGet => Ok(ViewCallAction::DiagnosticsGet),
        MethodId::HostPluginsList => Ok(ViewCallAction::PluginsList),
        MethodId::CommandsAdd => Ok(ViewCallAction::CommandsAdd),
        MethodId::CommandsRemove => {
            let ids = match param(params, "ids") {
                Some(v) => match &v.strings {
                    Some(items) => clone_strings(items),
                    None => Vec::new(),
                },
                None => Vec::new(),
            };
            proof {
                if ids@.len() == 0 {
                    assert(views(ids@) =~= Seq::<Seq<char>>::empty());
                }
            }
            Ok(ViewCallAction::CommandsRemove { ids })
        },
        MethodId::CommandsReplace => Ok(ViewCallAction::CommandsReplace),
        MethodId::CommandsUpdate => {
            let command_id = required_string_param(params, "id")?;
            Ok(ViewCallAction::CommandsUpdate { id: command_id })
        },
        MethodId::SearchRegisterProvider => {
            let provider = required_string_param(params, "id")?;
            let timeout_ms = match param(params, "timeout") {
                Some(v) => match v.count {
                    Some(n) => n,
                    None => DEFAULT_SEARCH_TIMEOUT_MS,
                },
                None => DEFAULT_SEARCH_TIMEOUT_MS,
            };
            Ok(
                ViewCallAction::RegisterSearchProvider {
                    plugin_id: c.plugin_id.clone(),
                    runtime_id: c.id.clone(),
                    provider_id: plugin_dot(c.plugin_id.as_str(), provider.as_str()),
                    webview_label: owned(label),
                    timeout_ms,
                },
            )
        },
        MethodId::SearchUnregisterProvider => {
            let provider = required_string_param(params, "id")?;
            Ok(
                ViewCallAction::UnregisterSearchProvider {
                    provider_id: plugin_dot(c.plugin_id.as_str(), provider.as_str()),
                },
            )
        },
        _ => Err(
            PluginRuntimeError::permission_denied(concat("unknown plugin runtime method: ", method)),
        ),
    }
}

/// Routes a runtime API call from the webview labelled `webview_label`:
/// finds the runtime on that surface, checks that it may call the method,
/// checks the parameters, and says what the host is to do.
pub fn plan_view_call(
    registry: &PluginRuntimeRegistry,
    webview_label: &str,
    method: &str,
    params: &CallParams,
) -> (r: Result<ViewCallAction, PluginRuntimeError>)
    requires
        registry.wf(),
    ensures
        match r {
            Ok(a) => view_call_plan(
                surface_runtime(registry.runtimes(), webview_label@),
                webview_label@,
                method@,
                params@,
            ) == Ok::<ViewCallPlan, ErrorView>(a@),
            Err(e) => view_call_plan(
                surface_runtime(registry.runtimes(), webview_label@),
                webview_label@,
                method@,
                params@,
            ) == Err::<ViewCallPlan, ErrorView>(error_view(e)),
        },
{
    let context = match registry.runtime_for_surface_id(webview_label) {
        Some(c) => c,
        None => {
            return Err(
                PluginRuntimeError::permission_denied(
                    concat("not a registered plugin runtime: ", webview_label),
                ),
            );
        },
    };
    assert(can_call_spec(context, method@) == can_call_view(context@, method@));
    if !can_call_method(&context, method) {
        let a = concat("plugin ", context.plugin_id.as_str());
        let b = concat(a.as_str(), " is not allowed to call ");
        return Err(PluginRuntimeError::permission_denied(concat(b.as_str(), method)));
    }
    let descriptor = match MethodDescriptor::find_by_name(method) {
        Some(d) => d,
        None => {
            return Err(
                PluginRuntimeError::permission_denied(
                    concat("unknown plugin runtime method: ", method),
                ),
            );
        },
    };
    plan_method(&context, webview_label, method, descriptor.id, params)
}

/// A call is only ever planned for a runtime that may call the method, and
/// every plan concerns the calling runtime: its id, or its plugin's id.
pub proof fn law_planned_calls_are_permitted(
    c: RuntimeContextView,
    label: Seq<char>,
    method: Seq<char>,
    ps: ParamsView,
)
    requires
        view_call_plan(Some(c), label, method, ps) is Ok,
    ensures
        can_call_view(c, method),
        method_info(method) is Some,
        match view_call_plan(Some(c), label, method, ps)->Ok_0 {
            ViewCallPlan::MarkReady { runtime_id } => runtime_id == c.id,
            ViewCallPlan::ReportInfo { runtime_id } => runtime_id == c.id,
            ViewCallPlan::Close { runtime_id } => runtime_id == c.id,
            ViewCallPlan::SetTitle { runtime_id, .. } => runtime_id == c.id,
            ViewCallPlan::Toast { plugin_id, .. } => plugin_id == c.plugin_id,
            ViewCallPlan::StorageGet { plugin_id, .. } => plugin_id == c.plugin_id,
            ViewCallPlan::StorageSet { plugin_id, .. } => plugin_id == c.plugin_id,
            ViewCallPlan::StorageRemove { plugin_id, .. } => plugin_id == c.plugin_id,
            ViewCallPlan::StorageClear { plugin_id } => plugin_id == c.plugin_id,
            ViewCallPlan::RegisterSearchProvider { plugin_id, runtime_id, webview_label, .. } =>
                plugin_id == c.plugin_id && runtime_id == c.id && webview_label == label,
            _ => true,
        },
{
}

} // verus!
