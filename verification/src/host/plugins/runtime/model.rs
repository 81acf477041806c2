//! Plugin runtime records and the errors the runtime bridge answers with.
use vstd::prelude::*;

use crate::manifest::RuntimePolicy;
use crate::text::{clone_strings, views};

verus! {

#[derive(Clone, Copy, Debug, PartialEq, Eq, Structural)]
pub enum PluginRuntimeLifecycle {
    Created,
    Ready,
    Active,
    Closed,
    Failed,
}

/// One plugin view runtime.
#[derive(Clone, Debug, PartialEq, Eq)]
pub struct PluginRuntimeContext {
    pub id: String,
    pub plugin_id: String,
    pub command_id: String,
    pub plugin_name: String,
    pub title: String,
    pub entry_url: String,
    /// The surface the runtime is shown on.
    pub surface_id: String,
    pub permissions: Vec<String>,
    /// Whether the runtime belongs to a trusted (bundled) plugin.
    pub trusted: bool,
    pub policy: RuntimePolicy,
    pub lifecycle: PluginRuntimeLifecycle,
    pub pending_enter: bool,
    pub entered: bool,
    pub created_at: String,
    pub updated_at: String,
}

/// A runtime record with its strings taken by their characters.
pub struct RuntimeContextView {
    pub id: Seq<char>,
    pub plugin_id: Seq<char>,
    pub command_id: Seq<char>,
    pub plugin_name: Seq<char>,
    pub title: Seq<char>,
    pub entry_url: Seq<char>,
    pub surface_id: Seq<char>,
    pub permissions: Seq<Seq<char>>,
    pub trusted: bool,
    pub policy: RuntimePolicy,
    pub lifecycle: PluginRuntimeLifecycle,
    pub pending_enter: bool,
    pub entered: bool,
    pub created_at: Seq<char>,
    pub updated_at: Seq<char>,
}

impl View for PluginRuntimeContext {
    type V = RuntimeContextView;

    open spec fn view(&self) -> RuntimeContextView {
        RuntimeContextView {
            id: self.id@,
            plugin_id: self.plugin_id@,
            command_id: self.command_id@,
            plugin_name: self.plugin_name@,
            title: self.title@,
            entry_url: self.entry_url@,
            surface_id: self.surface_id@,
            permissions: views(self.permissions@),
            trusted: self.trusted,
            policy: self.policy,
            lifecycle: self.lifecycle,
            pending_enter: self.pending_enter,
            entered: self.entered,
            created_at: self.created_at@,
            updated_at: self.updated_at@,
        }
    }
}

impl PluginRuntimeContext {
    /// A copy with the same view.
    pub fn duplicate(&self) -> (r: Self)
        ensures
            r@ == self@,
    {
        let permissions = clone_strings(&self.permissions);
        assert(permissions@ =~= self.permissions@);
        PluginRuntimeContext {
            id: self.id.clone(),
            plugin_id: self.plugin_id.clone(),
            command_id: self.command_id.clone(),
            plugin_name: self.plugin_name.clone(),
            title: self.title.clone(),
            entry_url: self.entry_url.clone(),
            surface_id: self.surface_id.clone(),
            permissions,
            trusted: self.trusted,
            policy: self.policy,
            lifecycle: self.lifecycle,
            pending_enter: self.pending_enter,
            entered: self.entered,
            created_at: self.created_at.clone(),
            updated_at: self.updated_at.clone(),
        }
    }
}

/// What the runtime bridge reports about a runtime.
#[derive(Clone, Debug)]
pub struct PluginRuntimeInfo {
    pub runtime_id: String,
    pub plugin_id: String,
    pub command_id: String,
    pub plugin_name: String,
    pub title: String,
    pub surface_id: String,
    pub host_kind: Option<String>,
    pub lifecycle: PluginRuntimeLifecycle,
    pub permissions: Vec<String>,
}

#[derive(Clone, Debug)]
pub struct PermissionQueryResult {
    pub permission: String,
    pub state: PermissionQueryState,
}

#[derive(Clone, Copy, Debug, PartialEq, Eq, Structural)]
pub enum PermissionQueryState {
    Granted,
    Denied,
}

#[derive(Clone, Copy, Debug, PartialEq, Eq, Structural)]
pub enum PluginRuntimeErrorCode {
    PermissionDenied,
    InvalidParams,
    Unsupported,
    Internal,
}

#[derive(Clone, Debug)]
pub struct PluginRuntimeError {
    pub code: PluginRuntimeErrorCode,
    pub message: String,
}

impl PluginRuntimeError {
    pub fn permission_denied(message: String) -> (e: Self)
        ensures
            e.code == PluginRuntimeErrorCode::PermissionDenied,
            e.message == message,
    {
        PluginRuntimeError { code: PluginRuntimeErrorCode::PermissionDenied, message }
    }

    pub fn invalid_params(message: String) -> (e: Self)
        ensures
            e.code == PluginRuntimeErrorCode::InvalidParams,
            e.message == message,
    {
        PluginRuntimeError { code: PluginRuntimeErrorCode::InvalidParams, message }
    }

    pub fn unsupported(message: String) -> (e: Self)
        ensures
            e.code == PluginRuntimeErrorCode::Unsupported,
            e.message == message,
    {
        PluginRuntimeError { code: PluginRuntimeErrorCode::Unsupported, message }
    }

    pub fn internal(message: String) -> (e: Self)
        ensures
            e.code == PluginRuntimeErrorCode::Internal,
            e.message == message,
    {
        PluginRuntimeError { code: PluginRuntimeErrorCode::Internal, message }
    }
}

} // verus!
