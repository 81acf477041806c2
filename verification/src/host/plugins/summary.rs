//! What the launcher is told about installed plugins and their views.
use crate::host::plugins::runtime::service::{
    enabled_command_spec, find_enabled_plugin_command, find_plugin, find_plugin_spec,
};
use crate::manifest::{mode_name, InstalledPlugin, PluginCommand};
use crate::protocol::plugin::{entry_url_spec, plugin_asset_url, plugin_asset_url_spec, resolve_entry_url};
use crate::text::{clone_opt, clone_strings, opt_text, owned};
use vstd::prelude::*;

verus! {

/// One command of a plugin, as listed.
#[derive(Clone, Debug)]
pub struct PluginCommandSummary {
    pub id: String,
    pub title: String,
    pub subtitle: Option<String>,
    pub keywords: Vec<String>,
    pub mode: String,
}

/// An installed plugin, as listed.
#[derive(Clone, Debug)]
pub struct PluginSummary {
    pub id: String,
    pub name: String,
    pub version: String,
    pub description: Option<String>,
    pub author: Option<String>,
    /// The icon's URL under the plugin scheme.
    pub icon: String,
    pub enabled: bool,
    pub trusted: bool,
    pub source: String,
    pub path: String,
    pub permissions: Vec<String>,
    pub commands: Vec<PluginCommandSummary>,
}

/// What the launcher needs to open a plugin view.
#[derive(Clone, Debug)]
pub struct PluginViewDescriptor {
    pub plugin_id: String,
    pub command_id: String,
    pub plugin_name: String,
    pub title: String,
    pub entry_url: String,
    pub icon: String,
    pub permissions: Vec<String>,
    /// The manifest has a `development` section.
    pub dev: bool,
}

/// What a plugin runtime is opened from.
#[derive(Clone, Debug)]
pub struct PluginRuntimeDescriptor {
    pub plugin_id: String,
    pub command_id: String,
    pub plugin_name: String,
    pub title: String,
    pub entry_url: String,
    pub permissions: Vec<String>,
}

/// A recent use of a launcher result, for diagnostics.
#[derive(Clone, Debug)]
pub struct UsageEventResponse {
    pub target_type: String,
    pub target_id: String,
    pub query: Option<String>,
    pub selected_at: String,
}

/// A command as listed.
pub fn command_summary(command: &PluginCommand) -> (s: PluginCommandSummary)
    ensures
        s.id@ == command.id@,
        s.title@ == command.title@,
        opt_text(s.subtitle) == opt_text(command.subtitle),
        s.keywords@ == command.keywords@,
        s.mode@ == mode_name(command.mode),
{
    PluginCommandSummary {
        id: command.id.clone(),
        title: command.title.clone(),
        subtitle: clone_opt(&command.subtitle),
        keywords: clone_strings(&command.keywords),
        mode: owned(command.mode.as_str()),
    }
}

/// An installed plugin as listed: its manifest's fields, its icon under the
/// plugin scheme, its state, and its commands in order.
pub fn plugin_summary(plugin: &InstalledPlugin) -> (s: PluginSummary)
    ensures
        s.id@ == plugin.manifest.id@,
        s.name@ == plugin.manifest.name@,
        s.version@ == plugin.manifest.version@,
        opt_text(s.description) == opt_text(plugin.manifest.description),
        opt_text(s.author) == opt_text(plugin.manifest.author),
        s.icon@ == plugin_asset_url_spec(plugin.manifest.id@, plugin.manifest.icon@),
        s.enabled == plugin.enabled,
        s.trusted == plugin.trusted,
        s.source@ == plugin.source@,
        s.path@ == plugin.path@,
        s.permissions@ == plugin.manifest.permissions@,
        s.commands@.len() == plugin.manifest.commands@.len(),
        forall|i: int|
            0 <= i < s.commands@.len() ==> {
                let c = #[trigger] s.commands@[i];
                let m = plugin.manifest.commands@[i];
                &&& c.id@ == m.id@
                &&& c.title@ == m.title@
                &&& opt_text(c.subtitle) == opt_text(m.subtitle)
                &&& c.keywords@ == m.keywords@
                &&& c.mode@ == mode_name(m.mode)
            },
{
    let mut commands: Vec<PluginCommandSummary> = Vec::new();
    let mut i: usize = 0;
    while i < plugin.manifest.commands.len()
        invariant
            i <= plugin.manifest.commands@.len(),
            commands@.len() == i,
            forall|j: int|
                0 <= j < i ==> {
                    let c = #[trigger] commands@[j];
                    let m = plugin.manifest.commands@[j];
                    &&& c.id@ == m.id@
                    &&& c.title@ == m.title@
                    &&& opt_text(c.subtitle) == opt_text(m.subtitle)
                    &&& c.keywords@ == m.keywords@
                    &&& c.mode@ == mode_name(m.mode)
                },
        decreases plugin.manifest.commands.len() - i,
    {
        commands.push(command_summary(&plugin.manifest.commands[i]));
        i = i + 1;
    }
    PluginSummary {
        id: plugin.manifest.id.clone(),
        name: plugin.manifest.name.clone(),
        version: plugin.manifest.version.clone(),
        description: clone_opt(&plugin.manifest.description),
        author: clone_opt(&plugin.manifest.author),
        icon: plugin_asset_url(plugin.manifest.id.as_str(), plugin.manifest.icon.as_str()),
        enabled: plugin.enabled,
        trusted: plugin.trusted,
        source: plugin.source.clone(),
        path: plugin.path.clone(),
        permissions: clone_strings(&plugin.manifest.permissions),
        commands,
    }
}

/// The descriptor of a plugin view: the command must be found on an
/// enabled plugin (see `find_enabled_plugin_command`), and the plugin's
/// entry URL must resolve.
pub fn plugin_view_descriptor(
    plugins: &Vec<InstalledPlugin>,
    plugin_id: String,
    command_id: String,
) -> (r: Result<PluginViewDescriptor, String>)
    ensures
        match enabled_command_spec(plugins@, plugin_id@, command_id@) {
            Err(m) => r is Err && r->Err_0@ == m,
            Ok((p, c)) => match entry_url_spec(p.manifest.id@, p.manifest) {
                Err(m) => r is Err && r->Err_0@ == m,
                Ok(u) => r is Ok && {
                    let d = r->Ok_0;
                    &&& d.plugin_id == plugin_id
                    &&& d.command_id == command_id
                    &&& d.plugin_name@ == p.manifest.name@
                    &&& d.title@ == c.title@
                    &&& d.entry_url@ == u
                    &&& d.icon@ == plugin_asset_url_spec(p.manifest.id@, p.manifest.icon@)
                    &&& d.permissions@ == p.manifest.permissions@
                    &&& d.dev == p.manifest.development is Some
                },
            },
        },
{
    let found = find_enabled_plugin_command(plugins, plugin_id.as_str(), command_id.as_str())?;
    let plugin = match find_plugin(plugins, plugin_id.as_str()) {
        Some(p) => p,
        None => {
            return Err(owned("plugin not found"));
        },
    };
    let dev = plugin.manifest.development.is_some();
    let entry_url = resolve_entry_url(plugin.manifest.id.as_str(), &plugin.manifest)?;
    let icon = plugin_asset_url(plugin.manifest.id.as_str(), plugin.manifest.icon.as_str());
    Ok(
        PluginViewDescriptor {
            plugin_id,
            command_id,
            plugin_name: found.plugin_name,
            title: found.title,
            entry_url,
            icon,
            permissions: found.permissions,
            dev,
        },
    )
}

/// The directory of an installed plugin, for uninstalling it.
pub fn uninstall_target(plugins: &Vec<InstalledPlugin>, plugin_id: &str) -> (r: Result<String, String>)
    ensures
        match find_plugin_spec(plugins@, plugin_id@) {
            Some(p) => r is Ok && r->Ok_0@ == p.path@,
            None => r is Err && r->Err_0@ == "插件不存在: "@ + plugin_id@,
        },
{
    match find_plugin(plugins, plugin_id) {
        Some(p) => Ok(p.path.clone()),
        None => Err(crate::text::concat("插件不存在: ", plugin_id)),
    }
}

} // verus!
