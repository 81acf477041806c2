//! The runtime API methods: their names, namespaces, capabilities and how
//! they are dispatched. The single table that dispatch, permission checks and
//! documentation go by.
use vstd::prelude::*;

use crate::host::plugins::runtime::capability::Capability;
use crate::text::str_eq;

verus! {

/// A runtime API method.
#[derive(Clone, Copy, Debug, Eq, PartialEq, Structural)]
pub enum MethodId {
    RuntimeReady,
    RuntimeGetInfo,
    RuntimeQueryPermission,
    StorageGet,
    StorageSet,
    StorageRemove,
    StorageClear,
    UIClose,
    UISetTitle,
    UIToast,
    CommandsAdd,
    CommandsRemove,
    CommandsReplace,
    CommandsUpdate,
    SettingsGet,
    SettingsUpdate,
    DiagnosticsGet,
    HostPluginsList,
    HostPluginsToggle,
    HostPluginsInstall,
    HostPluginsUninstall,
    HostDevtoolsOpen,
    HostIndexReload,
    SearchRegisterProvider,
    SearchUnregisterProvider,
    InputRegisterDetector,
}

/// A Tauri command that some host methods are served by.
#[derive(Clone, Copy, Debug, Eq, PartialEq, Structural)]
pub enum TauriCommandId {
    TogglePlugin,
    InstallPlugin,
    UninstallPlugin,
    OpenPluginDevtools,
    ReloadIndex,
}

pub open spec fn tauri_command_name(c: TauriCommandId) -> Seq<char> {
    match c {
        TauriCommandId::TogglePlugin => "toggle_plugin"@,
        TauriCommandId::InstallPlugin => "install_plugin"@,
        TauriCommandId::UninstallPlugin => "uninstall_plugin"@,
        TauriCommandId::OpenPluginDevtools => "open_plugin_devtools"@,
        TauriCommandId::ReloadIndex => "reload_index"@,
    }
}

impl TauriCommandId {
    /// The command's name.
    pub fn as_str(&self) -> (s: &'static str)
        ensures
            s@ == tauri_command_name(*self),
    {
        match self {
            TauriCommandId::TogglePlugin => "toggle_plugin",
            TauriCommandId::InstallPlugin => "install_plugin",
            TauriCommandId::UninstallPlugin => "uninstall_plugin",
            TauriCommandId::OpenPluginDevtools => "open_plugin_devtools",
            TauriCommandId::ReloadIndex => "reload_index",
        }
    }
}

/// How a method is dispatched.
#[derive(Clone, Copy, Debug, Eq, PartialEq, Structural)]
pub enum MethodHandler {
    /// Through the runtime bridge's dispatcher.
    SdkDispatch,
    /// Straight to a Tauri command.
    TauriCommand(TauriCommandId),
}

/// A method's entry in the table.
#[derive(Clone, Copy, Debug)]
pub struct MethodDescriptor {
    pub id: MethodId,
    /// The dispatch key, such as `storage.get`.
    pub name: &'static str,
    /// The API namespace.
    pub namespace: &'static str,
    /// What a caller needs.
    pub capability: Capability,
    pub handler: MethodHandler,
    pub description: &'static str,
}

/// What the table says of a method.
pub struct MethodInfo {
    pub id: MethodId,
    pub namespace: Seq<char>,
    pub capability: Capability,
    pub handler: MethodHandler,
    pub description: Seq<char>,
}

/// The table entry for the method named `name`.
pub open spec fn method_info(name: Seq<char>) -> Option<MethodInfo> {
    if name == "runtime.ready"@ {
        Some(MethodInfo { id: MethodId::RuntimeReady, namespace: "runtime"@, capability: Capability::Intrinsic, handler: MethodHandler::SdkDispatch, description: "通知宿主插件视图已就绪，返回 PluginRuntimeInfo"@ })
    } else if name == "runtime.getInfo"@ {
        Some(MethodInfo { id: MethodId::RuntimeGetInfo, namespace: "runtime"@, capability: Capability::Intrinsic, handler: MethodHandler::SdkDispatch, description: "获取当前运行时信息"@ })
    } else if name == "permissions.query"@ {
        Some(MethodInfo { id: MethodId::RuntimeQueryPermission, namespace: "runtime"@, capability: Capability::Intrinsic, handler: MethodHandler::SdkDispatch, description: "查询指定权限是否被授予"@ })
    } else if name == "storage.get"@ {
        Some(MethodInfo { id: MethodId::StorageGet, namespace: "storage"@, capability: Capability::Storage, handler: MethodHandler::SdkDispatch, description: "读取插件级 KV 存储，key ≤ 256B，value ≤ 256KB"@ })
    } else if name == "storage.set"@ {
        Some(MethodInfo { id: MethodId::StorageSet, namespace: "storage"@, capability: Capability::Storage, handler: MethodHandler::SdkDispatch, description: "写入插件级 KV 存储"@ })
    } else if name == "storage.remove"@ {
        Some(MethodInfo { id: MethodId::StorageRemove, namespace: "storage"@, capability: Capability::Storage, handler: MethodHandler::SdkDispatch, description: "删除指定 key 的存储条目"@ })
    } else if name == "storage.clear"@ {
        Some(MethodInfo { id: MethodId::StorageClear, namespace: "storage"@, capability: Capability::Storage, handler: MethodHandler::SdkDispatch, description: "清空当前插件全部存储"@ })
    } else if name == "ui.close"@ {
        Some(MethodInfo { id: MethodId::UIClose, namespace: "ui"@, capability: Capability::UI, handler: MethodHandler::SdkDispatch, description: "关闭当前插件视图"@ })
    } else if name == "ui.setTitle"@ {
        Some(MethodInfo { id: MethodId::UISetTitle, namespace: "ui"@, capability: Capability::UI, handler: MethodHandler::SdkDispatch, description: "设置视图标题，≤ 128B"@ })
    } else if name == "ui.toast"@ {
        Some(MethodInfo { id: MethodId::UIToast, namespace: "ui"@, capability: Capability::UI, handler: MethodHandler::SdkDispatch, description: "显示 toast 通知"@ })
    } else if name == "commands.add"@ {
        Some(MethodInfo { id: MethodId::CommandsAdd, namespace: "commands"@, capability: Capability::Commands, handler: MethodHandler::SdkDispatch, description: "批量注册动态搜索命令"@ })
    } else if name == "commands.remove"@ {
        Some(MethodInfo { id: MethodId::CommandsRemove, namespace: "commands"@, capability: Capability::Commands, handler: MethodHandler::SdkDispatch, description: "批量删除动态搜索命令"@ })
    } else if name == "commands.replace"@ {
        Some(MethodInfo { id: MethodId::CommandsReplace, namespace: "commands"@, capability: Capability::Commands, handler: MethodHandler::SdkDispatch, description: "原子替换全部动态搜索命令"@ })
    } else if name == "commands.update"@ {
        Some(MethodInfo { id: MethodId::CommandsUpdate, namespace: "commands"@, capability: Capability::Commands, handler: MethodHandler::SdkDispatch, description: "更新单条动态命令的部分字段"@ })
    } else if name == "settings.get"@ {
        Some(MethodInfo { id: MethodId::SettingsGet, namespace: "settings"@, capability: Capability::SettingsRead, handler: MethodHandler::SdkDispatch, description: "读取全局应用设置"@ })
    } else if name == "settings.update"@ {
        Some(MethodInfo { id: MethodId::SettingsUpdate, namespace: "settings"@, capability: Capability::SettingsWrite, handler: MethodHandler::SdkDispatch, description: "更新全局应用设置（自动重建快捷键 + 应用主题）"@ })
    } else if name == "diagnostics.get"@ {
        Some(MethodInfo { id: MethodId::DiagnosticsGet, namespace: "diagnostics"@, capability: Capability::Diagnostics, handler: MethodHandler::SdkDispatch, description: "获取诊断信息"@ })
    } else if name == "plugins.list"@ {
        Some(MethodInfo { id: MethodId::HostPluginsList, namespace: "host"@, capability: Capability::PluginsList, handler: MethodHandler::SdkDispatch, description: "列出所有已安装插件及其元数据"@ })
    } else if name == "plugins.toggle"@ {
        Some(MethodInfo { id: MethodId::HostPluginsToggle, namespace: "host"@, capability: Capability::PluginsManage, handler: MethodHandler::TauriCommand(TauriCommandId::TogglePlugin), description: "启用或禁用指定插件"@ })
    } else if name == "plugins.install"@ {
        Some(MethodInfo { id: MethodId::HostPluginsInstall, namespace: "host"@, capability: Capability::PluginsManage, handler: MethodHandler::TauriCommand(TauriCommandId::InstallPlugin), description: "从文件路径安装插件"@ })
    } else if name == "plugins.uninstall"@ {
        Some(MethodInfo { id: MethodId::HostPluginsUninstall, namespace: "host"@, capability: Capability::PluginsManage, handler: MethodHandler::TauriCommand(TauriCommandId::UninstallPlugin), description: "卸载指定插件"@ })
    } else if name == "devtools.open"@ {
        Some(MethodInfo { id: MethodId::HostDevtoolsOpen, namespace: "host"@, capability: Capability::Devtools, handler: MethodHandler::TauriCommand(TauriCommandId::OpenPluginDevtools), description: "打开插件的 Chrome DevTools"@ })
    } else if name == "index.reload"@ {
        Some(MethodInfo { id: MethodId::HostIndexReload, namespace: "host"@, capability: Capability::Index, handler: MethodHandler::TauriCommand(TauriCommandId::ReloadIndex), description: "重建应用索引"@ })
    } else if name == "search.registerProvider"@ {
        Some(MethodInfo { id: MethodId::SearchRegisterProvider, namespace: "search"@, capability: Capability::SearchProvider, handler: MethodHandler::SdkDispatch, description: "注册自定义搜索源"@ })
    } else if name == "search.unregisterProvider"@ {
        Some(MethodInfo { id: MethodId::SearchUnregisterProvider, namespace: "search"@, capability: Capability::SearchProvider, handler: MethodHandler::SdkDispatch, description: "注销自定义搜索源"@ })
    } else if name == "input.registerDetector"@ {
        Some(MethodInfo { id: MethodId::InputRegisterDetector, namespace: "input"@, capability: Capability::InputDetector, handler: MethodHandler::SdkDispatch, description: "注册输入检测器"@ })
    } else {
        None
    }
}

/// The descriptor agrees with the table entry for its name.
pub open spec fn describes(d: MethodDescriptor, info: MethodInfo) -> bool {
    &&& d.id == info.id
    &&& d.namespace@ == info.namespace
    &&& d.capability == info.capability
    &&& d.handler == info.handler
    &&& d.description@ == info.description
}

impl MethodDescriptor {
    /// The descriptor of the method named `name`.
    pub fn find_by_name(name: &str) -> (r: Option<MethodDescriptor>)
        ensures
            r is None <==> method_info(name@) is None,
            r matches Some(d) ==> d.name@ == name@ && describes(d, method_info(name@)->0),
    {
        find_method(name)
    }
}

fn find_method(name: &str) -> (r: Option<MethodDescriptor>)
    ensures
        r is None <==> method_info(name@) is None,
        r matches Some(d) ==> d.name@ == name@ && describes(d, method_info(name@)->0),
{
    if str_eq(name, "runtime.ready") {
        return Some(MethodDescriptor {
            id: MethodId::RuntimeReady,
            name: "runtime.ready",
            namespace: "runtime",
            capability: Capability::Intrinsic,
            handler: MethodHandler::SdkDispatch,
            description: "通知宿主插件视图已就绪，返回 PluginRuntimeInfo",
        });
    }
    if str_eq(name, "runtime.getInfo") {
        return Some(MethodDescriptor {
            id: MethodId::RuntimeGetInfo,
            name: "runtime.getInfo",
            namespace: "runtime",
            capability: Capability::Intrinsic,
            handler: MethodHandler::SdkDispatch,
            description: "获取当前运行时信息",
        });
    }
    if str_eq(name, "permissions.query") {
        return Some(MethodDescriptor {
            id: MethodId::RuntimeQueryPermission,
            name: "permissions.query",
            namespace: "runtime",
            capability: Capability::Intrinsic,
            handler: MethodHandler::SdkDispatch,
            description: "查询指定权限是否被授予",
        });
    }
    if str_eq(name, "storage.get") {
        return Some(MethodDescriptor {
            id: MethodId::StorageGet,
            name: "storage.get",
            namespace: "storage",
            capability: Capability::Storage,
            handler: MethodHandler::SdkDispatch,
            description: "读取插件级 KV 存储，key ≤ 256B，value ≤ 256KB",
        });
    }
    if str_eq(name, "storage.set") {
        return Some(MethodDescriptor {
            id: MethodId::StorageSet,
            name: "storage.set",
            namespace: "storage",
            capability: Capability::Storage,
            handler: MethodHandler::SdkDispatch,
            description: "写入插件级 KV 存储",
        });
    }
    if str_eq(name, "storage.remove") {
        return Some(MethodDescriptor {
            id: MethodId::StorageRemove,
            name: "storage.remove",
            namespace: "storage",
            capability: Capability::Storage,
            handler: MethodHandler::SdkDispatch,
            description: "删除指定 key 的存储条目",
        });
    }
    if str_eq(name, "storage.clear") {
        return Some(MethodDescriptor {
            id: MethodId::StorageClear,
            name: "storage.clear",
            namespace: "storage",
            capability: Capability::Storage,
            handler: MethodHandler::SdkDispatch,
            description: "清空当前插件全部存储",
        });
    }
    if str_eq(name, "ui.close") {
        return Some(MethodDescriptor {
            id: MethodId::UIClose,
            name: "ui.close",
            namespace: "ui",
            capability: Capability::UI,
            handler: MethodHandler::SdkDispatch,
            description: "关闭当前插件视图",
        });
    }
    if str_eq(name, "ui.setTitle") {
        return Some(MethodDescriptor {
            id: MethodId::UISetTitle,
            name: "ui.setTitle",
            namespace: "ui",
            capability: Capability::UI,
            handler: MethodHandler::SdkDispatch,
            description: "设置视图标题，≤ 128B",
        });
    }
    if str_eq(name, "ui.toast") {
        return Some(MethodDescriptor {
            id: MethodId::UIToast,
            name: "ui.toast",
            namespace: "ui",
            capability: Capability::UI,
            handler: MethodHandler::SdkDispatch,
            description: "显示 toast 通知",
        });
    }
    if str_eq(name, "commands.add") {
        return Some(MethodDescriptor {
            id: MethodId::CommandsAdd,
            name: "commands.add",
            namespace: "commands",
            capability: Capability::Commands,
            handler: MethodHandler::SdkDispatch,
            description: "批量注册动态搜索命令",
        });
    }
    if str_eq(name, "commands.remove") {
        return Some(MethodDescriptor {
            id: MethodId::CommandsRemove,
            name: "commands.remove",
            namespace: "commands",
            capability: Capability::Commands,
            handler: MethodHandler::SdkDispatch,
            description: "批量删除动态搜索命令",
        });
    }
    if str_eq(name, "commands.replace") {
        return Some(MethodDescriptor {
            id: MethodId::CommandsReplace,
            name: "commands.replace",
            namespace: "commands",
            capability: Capability::Commands,
            handler: MethodHandler::SdkDispatch,
            description: "原子替换全部动态搜索命令",
        });
    }
    if str_eq(name, "commands.update") {
        return Some(MethodDescriptor {
            id: MethodId::CommandsUpdate,
            name: "commands.update",
            namespace: "commands",
            capability: Capability::Commands,
            handler: MethodHandler::SdkDispatch,
            description: "更新单条动态命令的部分字段",
        });
    }
    if str_eq(name, "settings.get") {
        return Some(MethodDescriptor {
            id: MethodId::SettingsGet,
            name: "settings.get",
            namespace: "settings",
            capability: Capability::SettingsRead,
            handler: MethodHandler::SdkDispatch,
            description: "读取全局应用设置",
        });
    }
    if str_eq(name, "settings.update") {
        return Some(MethodDescriptor {
            id: MethodId::SettingsUpdate,
            name: "settings.update",
            namespace: "settings",
            capability: Capability::SettingsWrite,
            handler: MethodHandler::SdkDispatch,
            description: "更新全局应用设置（自动重建快捷键 + 应用主题）",
        });
    }
    if str_eq(name, "diagnostics.get") {
        return Some(MethodDescriptor {
            id: MethodId::DiagnosticsGet,
            name: "diagnostics.get",
            namespace: "diagnostics",
            capability: Capability::Diagnostics,
            handler: MethodHandler::SdkDispatch,
            description: "获取诊断信息",
        });
    }
    if str_eq(name, "plugins.list") {
        return Some(MethodDescriptor {
            id: MethodId::HostPluginsList,
            name: "plugins.list",
            namespace: "host",
            capability: Capability::PluginsList,
            handler: MethodHandler::SdkDispatch,
            description: "列出所有已安装插件及其元数据",
        });
    }
    if str_eq(name, "plugins.toggle") {
        return Some(MethodDescriptor {
            id: MethodId::HostPluginsToggle,
            name: "plugins.toggle",
            namespace: "host",
            capability: Capability::PluginsManage,
            handler: MethodHandler::TauriCommand(TauriCommandId::TogglePlugin),
            description: "启用或禁用指定插件",
        });
    }
    if str_eq(name, "plugins.install") {
        return Some(MethodDescriptor {
            id: MethodId::HostPluginsInstall,
            name: "plugins.install",
            namespace: "host",
            capability: Capability::PluginsManage,
            handler: MethodHandler::TauriCommand(TauriCommandId::InstallPlugin),
            description: "从文件路径安装插件",
        });
    }
    if str_eq(name, "plugins.uninstall") {
        return Some(MethodDescriptor {
            id: MethodId::HostPluginsUninstall,
            name: "plugins.uninstall",
            namespace: "host",
            capability: Capability::PluginsManage,
            handler: MethodHandler::TauriCommand(TauriCommandId::UninstallPlugin),
            description: "卸载指定插件",
        });
    }
    if str_eq(name, "devtools.open") {
        return Some(MethodDescriptor {
            id: MethodId::HostDevtoolsOpen,
            name: "devtools.open",
            namespace: "host",
            capability: Capability::Devtools,
            handler: MethodHandler::TauriCommand(TauriCommandId::OpenPluginDevtools),
            description: "打开插件的 Chrome DevTools",
        });
    }
    if str_eq(name, "index.reload") {
        return Some(MethodDescriptor {
            id: MethodId::HostIndexReload,
            name: "index.reload",
            namespace: "host",
            capability: Capability::Index,
            handler: MethodHandler::TauriCommand(TauriCommandId::ReloadIndex),
            description: "重建应用索引",
        });
    }
    if str_eq(name, "search.registerProvider") {
        return Some(MethodDescriptor {
            id: MethodId::SearchRegisterProvider,
            name: "search.registerProvider",
            namespace: "search",
            capability: Capability::SearchProvider,
            handler: MethodHandler::SdkDispatch,
            description: "注册自定义搜索源",
        });
    }
    if str_eq(name, "search.unregisterProvider") {
        return Some(MethodDescriptor {
            id: MethodId::SearchUnregisterProvider,
            name: "search.unregisterProvider",
            namespace: "search",
            capability: Capability::SearchProvider,
            handler: MethodHandler::SdkDispatch,
            description: "注销自定义搜索源",
        });
    }
    if str_eq(name, "input.registerDetector") {
        return Some(MethodDescriptor {
            id: MethodId::InputRegisterDetector,
            name: "input.registerDetector",
            namespace: "input",
            capability: Capability::InputDetector,
            handler: MethodHandler::SdkDispatch,
            description: "注册输入检测器",
        });
    }
    None
}

} // verus!
