//! Runtime records of the first bridge generation; they share the later
//! generation's errors, lifecycle and permission queries.
pub use crate::host::plugins::runtime::model::{
    PermissionQueryResult, PermissionQueryState, PluginRuntimeError, PluginRuntimeErrorCode,
    PluginRuntimeLifecycle,
};

use vstd::prelude::*;

verus! {

/// Where a runtime's view is shown.
#[derive(Clone, Copy, Debug, PartialEq, Eq, Structural)]
pub enum PluginRuntimePlacement {
    /// Inside the launcher window.
    Docked,
    /// In a window of its own.
    Detached,
}

} // verus!
