//! Turning a stored plugin command into one ready to run.
use crate::host::executor::{default_executor, default_executor_spec, ResolvedCommand};
use crate::host::plugins::commands::CommandRecord;
use crate::text::{chars_of, clone_opt, clone_strings, concat, opt_text, slice_chars, string_from_chars};
use crate::protocol::plugin::{plugin_asset_url, plugin_asset_url_spec, trim_leading_slashes};
use vstd::prelude::*;

verus! {

/// The script a command runs: the one it names, else
/// `dist/commands/{command id}.js`.
pub open spec fn command_script(c: CommandRecord) -> Seq<char> {
    match c.script {
        Some(s) => s@,
        None => "dist/commands/"@ + c.command_id@ + ".js"@,
    }
}

/// A stored command ready to run: its script as a URI under the plugin
/// scheme (leading `/` dropped), and its executor: the one it names when
/// not empty, else its mode's.
pub fn resolve_command(command: &CommandRecord) -> (r: ResolvedCommand)
    ensures
        r.id == command.id,
        r.plugin_id == command.plugin_id,
        r.command_id == command.command_id,
        r.title == command.title,
        r.mode == command.mode,
        r.executor@ == match command.executor {
            Some(e) => if e@.len() > 0 {
                e@
            } else {
                default_executor_spec(command.mode@)
            },
            None => default_executor_spec(command.mode@),
        },
        opt_text(r.icon) == opt_text(command.icon),
        r.script is Some && r.script->0@ == plugin_asset_url_spec(
            command.plugin_id@,
            trim_leading_slashes(command_script(*command)),
        ),
        r.permissions@ == command.permission_requirements@,
{
    let script = match &command.script {
        Some(s) => s.clone(),
        None => {
            let a = concat("dist/commands/", command.command_id.as_str());
            concat(a.as_str(), ".js")
        },
    };
    let v = chars_of(script.as_str());
    let mut i: usize = 0;
    assert(v@.skip(0) =~= v@);
    while i < v.len() && v[i] == '/'
        invariant
            v@ == script@,
            i <= v@.len(),
            trim_leading_slashes(script@) == trim_leading_slashes(v@.skip(i as int)),
        decreases v.len() - i,
    {
        assert(v@.skip(i as int).drop_first() =~= v@.skip(i + 1));
        i = i + 1;
    }
    let rest = slice_chars(&v, i, v.len());
    assert(rest@ =~= v@.skip(i as int));
    let rest = string_from_chars(&rest);
    let executor = match &command.executor {
        Some(e) => if !e.as_str().is_empty() {
            e.clone()
        } else {
            default_executor(command.mode.as_str())
        },
        None => default_executor(command.mode.as_str()),
    };
    ResolvedCommand {
        id: command.id.clone(),
        plugin_id: command.plugin_id.clone(),
        command_id: command.command_id.clone(),
        title: command.title.clone(),
        mode: command.mode.clone(),
        executor,
        icon: clone_opt(&command.icon),
        script: Some(plugin_asset_url(command.plugin_id.as_str(), rest.as_str())),
        permissions: clone_strings(&command.permission_requirements),
    }
}

} // verus!
