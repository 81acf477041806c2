//! Commands that plugin runtimes register at run time: who may register
//! them, the records they become, and how an update merges into a record.
use crate::host::plugins::runtime::registry::{runtime_spec, PluginRuntimeRegistry};
use crate::manifest::{mode_name, PluginCommand, PluginManifest};
use crate::text::{clone_opt, clone_strings, concat, is_prefix, opt_text, owned, strip_prefix, views};
use vstd::prelude::*;

verus! {

/// Webviews of plugin runtimes are labelled with this prefix and the
/// runtime's id.
pub const RUNTIME_WEBVIEW_PREFIX: &'static str = "plugin-";

/// A command as a plugin describes it; each field is present when the
/// plugin gave it as a string (`keywords`: the string items of an array).
#[derive(Clone, Debug)]
pub struct CommandSpec {
    pub id: Option<String>,
    pub title: Option<String>,
    pub subtitle: Option<String>,
    pub keywords: Option<Vec<String>>,
    pub mode: Option<String>,
    pub executor: Option<String>,
    pub icon: Option<String>,
    pub script: Option<String>,
    pub lifecycle: Option<String>,
    pub executor_runtime_id: Option<String>,
}

pub struct CommandSpecView {
    pub id: Option<Seq<char>>,
    pub title: Option<Seq<char>>,
    pub subtitle: Option<Seq<char>>,
    pub keywords: Option<Seq<Seq<char>>>,
    pub mode: Option<Seq<char>>,
    pub executor: Option<Seq<char>>,
    pub icon: Option<Seq<char>>,
    pub script: Option<Seq<char>>,
    pub lifecycle: Option<Seq<char>>,
    pub executor_runtime_id: Option<Seq<char>>,
}

pub open spec fn opt_texts(o: Option<Vec<String>>) -> Option<Seq<Seq<char>>> {
    match o {
        Some(v) => Some(views(v@)),
        None => None,
    }
}

impl View for CommandSpec {
    type V = CommandSpecView;

    open spec fn view(&self) -> CommandSpecView {
        CommandSpecView {
            id: opt_text(self.id),
            title: opt_text(self.title),
            subtitle: opt_text(self.subtitle),
            keywords: opt_texts(self.keywords),
            mode: opt_text(self.mode),
            executor: opt_text(self.executor),
            icon: opt_text(self.icon),
            script: opt_text(self.script),
            lifecycle: opt_text(self.lifecycle),
            executor_runtime_id: opt_text(self.executor_runtime_id),
        }
    }
}

/// A stored plugin command.
#[derive(Clone, Debug)]
pub struct CommandRecord {
    pub id: String,
    pub plugin_id: String,
    pub command_id: String,
    pub title: String,
    pub subtitle: Option<String>,
    pub keywords: Vec<String>,
    pub mode: String,
    pub executor: Option<String>,
    pub icon: Option<String>,
    pub script: Option<String>,
    pub source: String,
    pub lifecycle: String,
    pub registrar_runtime_id: Option<String>,
    pub executor_runtime_id: Option<String>,
    pub permission_requirements: Vec<String>,
}

pub struct CommandRecordView {
    pub id: Seq<char>,
    pub plugin_id: Seq<char>,
    pub command_id: Seq<char>,
    pub title: Seq<char>,
    pub subtitle: Option<Seq<char>>,
    pub keywords: Seq<Seq<char>>,
    pub mode: Seq<char>,
    pub executor: Option<Seq<char>>,
    pub icon: Option<Seq<char>>,
    pub script: Option<Seq<char>>,
    pub source: Seq<char>,
    pub lifecycle: Seq<char>,
    pub registrar_runtime_id: Option<Seq<char>>,
    pub executor_runtime_id: Option<Seq<char>>,
    pub permission_requirements: Seq<Seq<char>>,
}

impl View for CommandRecord {
    type V = CommandRecordView;

    open spec fn view(&self) -> CommandRecordView {
        CommandRecordView {
            id: self.id@,
            plugin_id: self.plugin_id@,
            command_id: self.command_id@,
            title: self.title@,
            subtitle: opt_text(self.subtitle),
            keywords: views(self.keywords@),
            mode: self.mode@,
            executor: opt_text(self.executor),
            icon: opt_text(self.icon),
            script: opt_text(self.script),
            source: self.source@,
            lifecycle: self.lifecycle@,
            registrar_runtime_id: opt_text(self.registrar_runtime_id),
            executor_runtime_id: opt_text(self.executor_runtime_id),
            permission_requirements: views(self.permission_requirements@),
        }
    }
}

/// The runtime and plugin a webview registers commands for.
#[derive(Clone, Debug)]
pub struct CommandRegistrar {
    pub runtime_id: String,
    pub plugin_id: String,
}

/// The runtime whose webview has the label, and its plugin: the label must
/// be `plugin-{runtime id}` and the runtime registered.
pub open spec fn registrar_spec(
    rs: crate::host::plugins::runtime::registry::RuntimeEntries,
    label: Seq<char>,
) -> Result<(Seq<char>, Seq<char>), Seq<char>> {
    if !is_prefix(RUNTIME_WEBVIEW_PREFIX@, label) {
        Err("not a plugin webview"@)
    } else {
        let id = label.skip(RUNTIME_WEBVIEW_PREFIX@.len() as int);
        match runtime_spec(rs, id) {
            None => Err("runtime not found: "@ + id),
            Some(c) => Ok((id, c.plugin_id)),
        }
    }
}

/// The runtime that owns the webview, for registering commands.
pub fn command_registrar(registry: &PluginRuntimeRegistry, webview_label: &str) -> (r: Result<
    CommandRegistrar,
    String,
>)
    requires
        registry.wf(),
    ensures
        match r {
            Ok(g) => registrar_spec(registry.runtimes(), webview_label@) == Ok::<
                (Seq<char>, Seq<char>),
                Seq<char>,
            >((g.runtime_id@, g.plugin_id@)),
            Err(e) => registrar_spec(registry.runtimes(), webview_label@) == Err::<
                (Seq<char>, Seq<char>),
                Seq<char>,
            >(e@),
        },
{
    let runtime_id = match strip_prefix(webview_label, RUNTIME_WEBVIEW_PREFIX) {
        Some(id) => id,
        None => {
            return Err(owned("not a plugin webview"));
        },
    };
    match registry.runtime(runtime_id.as_str()) {
        None => Err(concat("runtime not found: ", runtime_id.as_str())),
        Some(c) => Ok(CommandRegistrar { runtime_id, plugin_id: c.plugin_id }),
    }
}

/// What is wrong with a command description: no id, or no title.
pub open spec fn spec_error(s: CommandSpecView) -> Option<Seq<char>> {
    if s.id is None {
        Some("missing id"@)
    } else if s.title is None {
        Some("missing title"@)
    } else {
        None
    }
}

/// The record a runtime command becomes.
pub open spec fn runtime_record(
    plugin_id: Seq<char>,
    runtime_id: Seq<char>,
    record_id: Seq<char>,
    s: CommandSpecView,
    executor_runtime_id: Option<Seq<char>>,
) -> CommandRecordView {
    CommandRecordView {
        id: record_id,
        plugin_id,
        command_id: s.id->0,
        title: s.title->0,
        subtitle: s.subtitle,
        keywords: match s.keywords {
            Some(k) => k,
            None => Seq::empty(),
        },
        mode: match s.mode {
            Some(m) => m,
            None => "instant"@,
        },
        executor: s.executor,
        icon: s.icon,
        script: s.script,
        source: "runtime"@,
        lifecycle: match s.lifecycle {
            Some(l) => l,
            None => "permanent"@,
        },
        registrar_runtime_id: Some(runtime_id),
        executor_runtime_id,
        permission_requirements: Seq::empty(),
    }
}

fn text_or(o: &Option<String>, default: &str) -> (r: String)
    ensures
        r@ == match opt_text(*o) {
            Some(t) => t,
            None => default@,
        },
{
    match o {
        Some(t) => t.clone(),
        None => owned(default),
    }
}

/// The record for a runtime command that has an id and a title.
fn runtime_command_record(
    plugin_id: &str,
    runtime_id: &str,
    record_id: String,
    spec: &CommandSpec,
    executor_runtime_id: Option<String>,
) -> (r: CommandRecord)
    requires
        spec_error(spec@) is None,
    ensures
        r@ == runtime_record(plugin_id@, runtime_id@, record_id@, spec@, opt_text(
            executor_runtime_id,
        )),
{
    let keywords = match &spec.keywords {
        Some(k) => clone_strings(k),
        None => Vec::new(),
    };
    proof {
        if spec.keywords is None {
            assert(views(keywords@) =~= Seq::<Seq<char>>::empty());
        }
    }
    let empty: Vec<String> = Vec::new();
    assert(views(empty@) =~= Seq::<Seq<char>>::empty());
    CommandRecord {
        id: record_id,
        plugin_id: owned(plugin_id),
        command_id: match &spec.id {
            Some(i) => i.clone(),
            None => owned(""),
        },
        title: match &spec.title {
            Some(t) => t.clone(),
            None => owned(""),
        },
        subtitle: clone_opt(&spec.subtitle),
        keywords,
        mode: text_or(&spec.mode, "instant"),
        executor: clone_opt(&spec.executor),
        icon: clone_opt(&spec.icon),
        script: clone_opt(&spec.script),
        source: owned("runtime"),
        lifecycle: text_or(&spec.lifecycle, "permanent"),
        registrar_runtime_id: Some(owned(runtime_id)),
        executor_runtime_id,
        permission_requirements: empty,
    }
}

/// The records to write for a batch of runtime commands, in order, up to
/// the first description that is wrong; and what is wrong with it.
#[derive(Clone, Debug)]
pub struct CommandsPlan {
    pub records: Vec<CommandRecord>,
    pub error: Option<String>,
}

/// The record id a command added by a runtime gets: `{plugin id}:{id}`.
pub open spec fn added_record_id(plugin_id: Seq<char>, id: Seq<char>) -> Seq<char> {
    plugin_id + ":"@ + id
}

/// The records for `commands.add`: each command gets the id
/// `{plugin id}:{id}` and keeps the executor runtime it names. The batch
/// stops at the first command without an id or a title.
pub fn plan_add_commands(plugin_id: &str, runtime_id: &str, specs: &Vec<CommandSpec>) -> (r:
    CommandsPlan)
    ensures
        r.records@.len() <= specs@.len(),
        forall|i: int|
            0 <= i < r.records@.len() ==> spec_error(#[trigger] specs@[i]@) is None
                && r.records@[i]@ == runtime_record(
                plugin_id@,
                runtime_id@,
                added_record_id(plugin_id@, specs@[i]@.id->0),
                specs@[i]@,
                specs@[i]@.executor_runtime_id,
            ),
        r.error is Some <==> r.records@.len() < specs@.len(),
        r.error is Some ==> Some(r.error->0@) == spec_error(specs@[r.records@.len() as int]@),
{
    let mut records: Vec<CommandRecord> = Vec::new();
    let mut i: usize = 0;
    while i < specs.len()
        invariant
            i <= specs@.len(),
            records@.len() == i,
            forall|j: int|
                0 <= j < i ==> spec_error(#[trigger] specs@[j]@) is None && records@[j]@
                    == runtime_record(
                    plugin_id@,
                    runtime_id@,
                    added_record_id(plugin_id@, specs@[j]@.id->0),
                    specs@[j]@,
                    specs@[j]@.executor_runtime_id,
                ),
        decreases specs.len() - i,
    {
        let spec = &specs[i];
        let id = match &spec.id {
            Some(id) => id,
            None => {
                return CommandsPlan { records, error: Some(owned("missing id")) };
            },
        };
        if spec.title.is_none() {
            return CommandsPlan { records, error: Some(owned("missing title")) };
        }
        let a = concat(plugin_id, ":");
        let record_id = concat(a.as_str(), id.as_str());
        let record = runtime_command_record(
            plugin_id,
            runtime_id,
            record_id,
            spec,
            clone_opt(&spec.executor_runtime_id),
        );
        records.push(record);
        i = i + 1;
    }
    CommandsPlan { records, error: None }
}

/// The position of the first command description that is wrong (the
/// length when none is).
pub open spec fn first_spec_error(specs: Seq<CommandSpecView>) -> nat
    decreases specs.len(),
{
    if specs.len() == 0 {
        0
    } else if spec_error(specs[0]) is Some {
        0
    } else {
        1 + first_spec_error(specs.drop_first())
    }
}

proof fn lemma_first_spec_error(specs: Seq<CommandSpecView>)
    ensures
        first_spec_error(specs) <= specs.len(),
        forall|j: int| 0 <= j < first_spec_error(specs) ==> spec_error(#[trigger] specs[j]) is None,
        first_spec_error(specs) < specs.len() ==> spec_error(specs[first_spec_error(specs) as int]) is Some,
    decreases specs.len(),
{
    if specs.len() > 0 && spec_error(specs[0]) is None {
        lemma_first_spec_error(specs.drop_first());
        assert forall|j: int| 0 <= j < first_spec_error(specs) implies spec_error(
            #[trigger] specs[j],
        ) is None by {
            if j > 0 {
                assert(specs[j] == specs.drop_first()[j - 1]);
            }
        }
    }
}

/// The descriptions of a batch, as the specs' views.
pub open spec fn spec_views(specs: Seq<CommandSpec>) -> Seq<CommandSpecView> {
    specs.map_values(|c: CommandSpec| c@)
}

/// The records for `commands.replace`, which replaces the runtime's commands
/// all at once: when every command has an id and a title, the command at
/// position `i` gets the id `record_ids[i]` and no executor runtime; when
/// any does not, there is nothing to write, and the error is that of the
/// first command that is wrong.
pub fn plan_replace_commands(
    plugin_id: &str,
    runtime_id: &str,
    specs: &Vec<CommandSpec>,
    record_ids: &Vec<String>,
) -> (r: CommandsPlan)
    requires
        record_ids@.len() == specs@.len(),
    ensures
        first_spec_error(spec_views(specs@)) == specs@.len() ==> {
            &&& r.error is None
            &&& r.records@.len() == specs@.len()
            &&& forall|i: int|
                0 <= i < r.records@.len() ==> #[trigger] r.records@[i]@ == runtime_record(
                    plugin_id@,
                    runtime_id@,
                    record_ids@[i]@,
                    specs@[i]@,
                    None,
                )
        },
        first_spec_error(spec_views(specs@)) < specs@.len() ==> {
            &&& r.records@.len() == 0
            &&& r.error is Some
            &&& Some(r.error->0@) == spec_error(
                specs@[first_spec_error(spec_views(specs@)) as int]@,
            )
        },
{
    let ghost views = spec_views(specs@);
    proof {
        lemma_first_spec_error(views);
    }
    let mut records: Vec<CommandRecord> = Vec::new();
    let mut i: usize = 0;
    while i < specs.len()
        invariant
            i <= specs@.len(),
            record_ids@.len() == specs@.len(),
            views == spec_views(specs@),
            i <= first_spec_error(views),
            first_spec_error(views) <= specs@.len(),
            first_spec_error(views) < specs@.len() ==> spec_error(
                views[first_spec_error(views) as int],
            ) is Some,
            forall|j: int| 0 <= j < first_spec_error(views) ==> spec_error(#[trigger] views[j]) is None,
            records@.len() == i,
            forall|j: int|
                0 <= j < i ==> #[trigger] records@[j]@ == runtime_record(
                    plugin_id@,
                    runtime_id@,
                    record_ids@[j]@,
                    specs@[j]@,
                    None,
                ),
        decreases specs.len() - i,
    {
        let spec = &specs[i];
        assert(views[i as int] == specs@[i as int]@);
        if spec.id.is_none() {
            return CommandsPlan { records: Vec::new(), error: Some(owned("missing id")) };
        }
        if spec.title.is_none() {
            return CommandsPlan { records: Vec::new(), error: Some(owned("missing title")) };
        }
        let record = runtime_command_record(
            plugin_id,
            runtime_id,
            record_ids[i].clone(),
            spec,
            None,
        );
        records.push(record);
        i = i + 1;
    }
    CommandsPlan { records, error: None }
}

/// A record with the fields a `commands.update` call gives replaced; the
/// record's source, runtimes and permission requirements are kept.
pub open spec fn merged_record(
    existing: CommandRecordView,
    patch: CommandSpecView,
    record_id: Seq<char>,
    plugin_id: Seq<char>,
    command_id: Seq<char>,
) -> CommandRecordView {
    CommandRecordView {
        id: record_id,
        plugin_id,
        command_id,
        title: match patch.title {
            Some(t) => t,
            None => existing.title,
        },
        subtitle: match patch.subtitle {
            Some(t) => Some(t),
            None => existing.subtitle,
        },
        keywords: match patch.keywords {
            Some(k) => k,
            None => existing.keywords,
        },
        mode: match patch.mode {
            Some(m) => m,
            None => existing.mode,
        },
        executor: match patch.executor {
            Some(e) => Some(e),
            None => existing.executor,
        },
        icon: match patch.icon {
            Some(i) => Some(i),
            None => existing.icon,
        },
        script: match patch.script {
            Some(s) => Some(s),
            None => existing.script,
        },
        source: existing.source,
        lifecycle: match patch.lifecycle {
            Some(l) => l,
            None => existing.lifecycle,
        },
        registrar_runtime_id: existing.registrar_runtime_id,
        executor_runtime_id: existing.executor_runtime_id,
        permission_requirements: existing.permission_requirements,
    }
}

/// `commands.update` takes every field the patch gives and keeps every field
/// it leaves out; the record's source, runtimes and permission requirements
/// are never touched by a patch.
pub proof fn law_update_takes_given_fields(
    existing: CommandRecordView,
    patch: CommandSpecView,
    record_id: Seq<char>,
    plugin_id: Seq<char>,
    command_id: Seq<char>,
)
    ensures
        ({
            let m = merged_record(existing, patch, record_id, plugin_id, command_id);
            &&& m.id == record_id && m.plugin_id == plugin_id && m.command_id == command_id
            &&& (patch.title matches Some(t) ==> m.title == t)
            &&& (patch.title is None ==> m.title == existing.title)
            &&& (patch.subtitle matches Some(t) ==> m.subtitle == Some(t))
            &&& (patch.subtitle is None ==> m.subtitle == existing.subtitle)
            &&& (patch.keywords matches Some(k) ==> m.keywords == k)
            &&& (patch.keywords is None ==> m.keywords == existing.keywords)
            &&& (patch.mode matches Some(t) ==> m.mode == t)
            &&& (patch.mode is None ==> m.mode == existing.mode)
            &&& (patch.executor matches Some(t) ==> m.executor == Some(t))
            &&& (patch.executor is None ==> m.executor == existing.executor)
            &&& (patch.icon matches Some(t) ==> m.icon == Some(t))
            &&& (patch.icon is None ==> m.icon == existing.icon)
            &&& (patch.script matches Some(t) ==> m.script == Some(t))
            &&& (patch.script is None ==> m.script == existing.script)
            &&& (patch.lifecycle matches Some(t) ==> m.lifecycle == t)
            &&& (patch.lifecycle is None ==> m.lifecycle == existing.lifecycle)
            &&& m.source == existing.source
            &&& m.registrar_runtime_id == existing.registrar_runtime_id
            &&& m.executor_runtime_id == existing.executor_runtime_id
            &&& m.permission_requirements == existing.permission_requirements
        }),
{
}

fn patched_text(patch: &Option<String>, existing: String) -> (r: String)
    ensures
        r@ == match opt_text(*patch) {
            Some(t) => t,
            None => existing@,
        },
{
    match patch {
        Some(t) => t.clone(),
        None => existing,
    }
}

fn patched_opt(patch: &Option<String>, existing: Option<String>) -> (r: Option<String>)
    ensures
        opt_text(r) == match opt_text(*patch) {
            Some(t) => Some(t),
            None => opt_text(existing),
        },
{
    match patch {
        Some(t) => Some(t.clone()),
        None => existing,
    }
}

/// Merges a `commands.update` call into the stored record.
pub fn merge_command_update(
    existing: CommandRecord,
    patch: &CommandSpec,
    record_id: String,
    plugin_id: String,
    command_id: String,
) -> (r: CommandRecord)
    ensures
        r@ == merged_record(existing@, patch@, record_id@, plugin_id@, command_id@),
{
    let keywords = match &patch.keywords {
        Some(k) => clone_strings(k),
        None => existing.keywords,
    };
    CommandRecord {
        id: record_id,
        plugin_id,
        command_id,
        title: patched_text(&patch.title, existing.title),
        subtitle: patched_opt(&patch.subtitle, existing.subtitle),
        keywords,
        mode: patched_text(&patch.mode, existing.mode),
        executor: patched_opt(&patch.executor, existing.executor),
        icon: patched_opt(&patch.icon, existing.icon),
        script: patched_opt(&patch.script, existing.script),
        source: existing.source,
        lifecycle: patched_text(&patch.lifecycle, existing.lifecycle),
        registrar_runtime_id: existing.registrar_runtime_id,
        executor_runtime_id: existing.executor_runtime_id,
        permission_requirements: existing.permission_requirements,
    }
}

/// The ids of a batch of records, in order.
pub fn record_ids(records: &Vec<CommandRecord>) -> (ids: Vec<String>)
    ensures
        ids@.len() == records@.len(),
        forall|i: int| 0 <= i < ids@.len() ==> (#[trigger] ids@[i])@ == records@[i].id@,
{
    let mut ids: Vec<String> = Vec::new();
    let mut i: usize = 0;
    while i < records.len()
        invariant
            i <= records@.len(),
            ids@.len() == i,
            forall|j: int| 0 <= j < i ==> (#[trigger] ids@[j])@ == records@[j].id@,
        decreases records.len() - i,
    {
        ids.push(records[i].id.clone());
        i = i + 1;
    }
    ids
}

/// The record a command declared in a manifest becomes when its plugin
/// is installed.
pub open spec fn manifest_record(
    m: PluginManifest,
    c: PluginCommand,
    record_id: Seq<char>,
) -> CommandRecordView {
    CommandRecordView {
        id: record_id,
        plugin_id: m.id@,
        command_id: c.id@,
        title: c.title@,
        subtitle: opt_text(c.subtitle),
        keywords: views(c.keywords@),
        mode: mode_name(c.mode),
        executor: None,
        icon: None,
        script: None,
        source: "manifest"@,
        lifecycle: "permanent"@,
        registrar_runtime_id: None,
        executor_runtime_id: None,
        permission_requirements: views(m.permissions@),
    }
}

/// The records for the commands of a manifest being installed, in order;
/// the command at position `i` gets the id `record_ids[i]`.
pub fn manifest_command_records(manifest: &PluginManifest, record_ids: &Vec<String>) -> (r: Vec<
    CommandRecord,
>)
    requires
        record_ids@.len() == manifest.commands@.len(),
    ensures
        r@.len() == manifest.commands@.len(),
        forall|i: int|
            0 <= i < r@.len() ==> (#[trigger] r@[i])@ == manifest_record(
                *manifest,
                manifest.commands@[i],
                record_ids@[i]@,
            ),
{
    let mut r: Vec<CommandRecord> = Vec::new();
    let mut i: usize = 0;
    while i < manifest.commands.len()
        invariant
            i <= manifest.commands@.len(),
            record_ids@.len() == manifest.commands@.len(),
            r@.len() == i,
            forall|j: int|
                0 <= j < i ==> (#[trigger] r@[j])@ == manifest_record(
                    *manifest,
                    manifest.commands@[j],
                    record_ids@[j]@,
                ),
        decreases manifest.commands.len() - i,
    {
        let c = &manifest.commands[i];
        r.push(
            CommandRecord {
                id: record_ids[i].clone(),
                plugin_id: manifest.id.clone(),
                command_id: c.id.clone(),
                title: c.title.clone(),
                subtitle: clone_opt(&c.subtitle),
                keywords: clone_strings(&c.keywords),
                mode: owned(c.mode.as_str()),
                executor: None,
                icon: None,
                script: None,
                source: owned("manifest"),
                lifecycle: owned("permanent"),
                registrar_runtime_id: None,
                executor_runtime_id: None,
                permission_requirements: clone_strings(&manifest.permissions),
            },
        );
        i = i + 1;
    }
    r
}

} // verus!
