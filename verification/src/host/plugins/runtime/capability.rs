//! Capabilities: what a runtime call needs, as a permission and a trust level.
use vstd::prelude::*;

verus! {

/// The permission a capability needs and whether only trusted plugins get it.
#[derive(Clone, Copy, Debug)]
pub struct CapabilityDescriptor {
    /// The permission identifier; `None` for intrinsic capabilities.
    pub permission: Option<&'static str>,
    /// Whether the plugin must be trusted.
    pub trusted_only: bool,
}

/// What a call needs, independent of the API namespace it belongs to.
#[derive(Clone, Copy, Debug, Eq, PartialEq, Structural)]
pub enum Capability {
    Intrinsic,
    Storage,
    UI,
    Commands,
    SettingsRead,
    SettingsWrite,
    Diagnostics,
    PluginsList,
    PluginsManage,
    Devtools,
    Index,
    SearchProvider,
    SearchExecutor,
    InputDetector,
}

/// The permission of a capability (`None` when it needs none).
pub open spec fn capability_permission(c: Capability) -> Option<Seq<char>> {
    match c {
        Capability::Intrinsic => None,
        Capability::Storage => Some("litools-sdk:allow-storage"@),
        Capability::UI => Some("litools-sdk:allow-ui"@),
        Capability::Commands => Some("litools-sdk:allow-commands"@),
        Capability::SettingsRead => Some("litools-sdk:allow-settings-read"@),
        Capability::SettingsWrite => Some("litools-sdk:allow-settings-write"@),
        Capability::Diagnostics => Some("litools-sdk:allow-diagnostics"@),
        Capability::PluginsList => Some("litools-sdk:allow-plugins-list"@),
        Capability::PluginsManage => Some("litools-core:allow-plugins-manage"@),
        Capability::Devtools => Some("litools-core:allow-devtools"@),
        Capability::Index => Some("litools-core:allow-index"@),
        Capability::SearchProvider => Some("litools-sdk:allow-search-provider"@),
        Capability::SearchExecutor => Some("litools-sdk:allow-search-provider"@),
        Capability::InputDetector => Some("litools-sdk:allow-input-detector"@),
    }
}

/// Whether a capability is for trusted plugins only.
pub open spec fn capability_trusted_only(c: Capability) -> bool {
    match c {
        Capability::SettingsWrite | Capability::Diagnostics | Capability::PluginsList
        | Capability::PluginsManage | Capability::Devtools | Capability::Index => true,
        _ => false,
    }
}

impl Capability {
    /// The permission and trust level the capability needs.
    pub fn descriptor(&self) -> (d: CapabilityDescriptor)
        ensures
            d.trusted_only == capability_trusted_only(*self),
            d.permission is None <==> capability_permission(*self) is None,
            d.permission matches Some(p) ==> capability_permission(*self) == Some(p@),
    {
        match self {
            Capability::Intrinsic => CapabilityDescriptor { permission: None, trusted_only: false },
            Capability::Storage => CapabilityDescriptor {
                permission: Some("litools-sdk:allow-storage"),
                trusted_only: false,
            },
            Capability::UI => CapabilityDescriptor {
                permission: Some("litools-sdk:allow-ui"),
                trusted_only: false,
            },
            Capability::Commands => CapabilityDescriptor {
                permission: Some("litools-sdk:allow-commands"),
                trusted_only: false,
            },
            Capability::SettingsRead => CapabilityDescriptor {
                permission: Some("litools-sdk:allow-settings-read"),
                trusted_only: false,
            },
            Capability::SettingsWrite => CapabilityDescriptor {
                permission: Some("litools-sdk:allow-settings-write"),
                trusted_only: true,
            },
            Capability::Diagnostics => CapabilityDescriptor {
                permission: Some("litools-sdk:allow-diagnostics"),
                trusted_only: true,
            },
            Capability::PluginsList => CapabilityDescriptor {
                permission: Some("litools-sdk:allow-plugins-list"),
                trusted_only: true,
            },
            Capability::PluginsManage => CapabilityDescriptor {
                permission: Some("litools-core:allow-plugins-manage"),
                trusted_only: true,
            },
            Capability::Devtools => CapabilityDescriptor {
                permission: Some("litools-core:allow-devtools"),
                trusted_only: true,
            },
            Capability::Index => CapabilityDescriptor {
                permission: Some("litools-core:allow-index"),
                trusted_only: true,
            },
            Capability::SearchProvider => CapabilityDescriptor {
                permission: Some("litools-sdk:allow-search-provider"),
                trusted_only: false,
            },
            Capability::SearchExecutor => CapabilityDescriptor {
                permission: Some("litools-sdk:allow-search-provider"),
                trusted_only: false,
            },
            Capability::InputDetector => CapabilityDescriptor {
                permission: Some("litools-sdk:allow-input-detector"),
                trusted_only: false,
            },
        }
    }
}

} // verus!
