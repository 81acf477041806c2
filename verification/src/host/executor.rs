//! Executing resolved plugin commands: which executor a command goes to,
//! and the executors for view and instant commands.
use crate::text::{clone_strings, concat, owned, str_eq, views};
use vstd::prelude::*;

verus! {

/// A command ready to run, with its script as an absolute URI.
#[derive(Clone, Debug)]
pub struct ResolvedCommand {
    pub id: String,
    pub plugin_id: String,
    pub command_id: String,
    pub title: String,
    pub mode: String,
    pub executor: String,
    pub icon: Option<String>,
    pub script: Option<String>,
    pub permissions: Vec<String>,
}

/// The executor a mode runs in when a command names none.
pub open spec fn default_executor_spec(mode: Seq<char>) -> Seq<char> {
    if mode == "view"@ {
        "webview"@
    } else if mode == "instant"@ {
        "backgroundRuntime"@
    } else if mode == "searchProvider"@ {
        "provider"@
    } else {
        "webview"@
    }
}

/// The executor a mode runs in when a command names none.
pub fn default_executor(mode: &str) -> (e: String)
    ensures
        e@ == default_executor_spec(mode@),
{
    if str_eq(mode, "view") {
        owned("webview")
    } else if str_eq(mode, "instant") {
        owned("backgroundRuntime")
    } else if str_eq(mode, "searchProvider") {
        owned("provider")
    } else {
        owned("webview")
    }
}

/// Runs commands of some kind; `C` is what the host passes along.
pub trait CommandExecutor<C> {
    fn execute(&self, command: &ResolvedCommand, ctx: &C) -> Result<(), String>;
}

/// Where a command runs from: its runtime and webview, when any, and the
/// host's handle.
pub struct ExecutionContext<H> {
    pub runtime_id: Option<String>,
    pub webview_label: Option<String>,
    pub app_handle: H,
}

/// The position of the first name equal to `name` (the length when none is).
pub open spec fn first_pos(names: Seq<Seq<char>>, name: Seq<char>) -> int
    decreases names.len(),
{
    if names.len() == 0 {
        0
    } else if names[0] == name {
        0
    } else {
        1 + first_pos(names.drop_first(), name)
    }
}

proof fn lemma_first_pos(names: Seq<Seq<char>>, name: Seq<char>)
    ensures
        0 <= first_pos(names, name) <= names.len(),
        forall|j: int| 0 <= j < first_pos(names, name) ==> #[trigger] names[j] != name,
        first_pos(names, name) < names.len() ==> names[first_pos(names, name)] == name,
    decreases names.len(),
{
    if names.len() > 0 && names[0] != name {
        lemma_first_pos(names.drop_first(), name);
        assert forall|j: int| 0 <= j < first_pos(names, name) implies #[trigger] names[j]
            != name by {
            if j > 0 {
                assert(names[j] == names.drop_first()[j - 1]);
            }
        }
    }
}

/// Executors by name.
pub struct ExecutorRegistry<E> {
    executors: Vec<(String, E)>,
}

impl<E> ExecutorRegistry<E> {
    /// The names of the executors, in registration order.
    pub closed spec fn names(&self) -> Seq<Seq<char>> {
        self.executors@.map_values(|e: (String, E)| e.0@)
    }

    /// The executor registered under `name` (the first, were there two).
    pub closed spec fn executor_named(&self, name: Seq<char>) -> E {
        self.executors@[first_pos(self.names(), name)].1
    }

    /// No name occurs twice.
    pub open spec fn wf(&self) -> bool {
        forall|i: int, j: int|
            0 <= i < j < self.names().len() ==> #[trigger] self.names()[i] != #[trigger] self.names()[j]
    }

    pub fn new() -> (r: Self)
        ensures
            r.wf(),
            r.names() == Seq::<Seq<char>>::empty(),
    {
        let r = ExecutorRegistry { executors: Vec::new() };
        assert(r.names() =~= Seq::<Seq<char>>::empty());
        r
    }

    fn position(&self, name: &str) -> (r: Option<usize>)
        ensures
            r is None <==> !self.names().contains(name@),
            r matches Some(i) ==> i == first_pos(self.names(), name@) && i < self.names().len()
                && self.names()[i as int] == name@,
    {
        proof {
            lemma_first_pos(self.names(), name@);
        }
        let mut i: usize = 0;
        while i < self.executors.len()
            invariant
                i <= self.executors@.len(),
                self.names().len() == self.executors@.len(),
                forall|j: int| 0 <= j < i ==> self.names()[j] != name@,
                0 <= first_pos(self.names(), name@) <= self.names().len(),
                forall|j: int|
                    0 <= j < first_pos(self.names(), name@) ==> #[trigger] self.names()[j] != name@,
                first_pos(self.names(), name@) < self.names().len() ==> self.names()[first_pos(
                    self.names(),
                    name@,
                )] == name@,
            decreases self.executors.len() - i,
        {
            if str_eq(self.executors[i].0.as_str(), name) {
                assert(self.names()[i as int] == name@);
                return Some(i);
            }
            i = i + 1;
        }
        assert(!self.names().contains(name@)) by {
            if self.names().contains(name@) {
                let j = choose|j: int| 0 <= j < self.names().len() && self.names()[j] == name@;
                assert(self.names()[j] != name@);
            }
        }
        None
    }

    /// Registers an executor under `name`, replacing the one of that name.
    pub fn register(&mut self, name: &str, executor: E)
        requires
            old(self).wf(),
        ensures
            final(self).wf(),
            old(self).names().contains(name@) ==> final(self).names() == old(self).names(),
            !old(self).names().contains(name@) ==> final(self).names() == old(self).names().push(
                name@,
            ),
    {
        match self.position(name) {
            Some(i) => {
                let _ = self.executors.remove(i);
                self.executors.insert(i, (owned(name), executor));
                assert(self.names() =~= old(self).names());
            },
            None => {
                self.executors.push((owned(name), executor));
                assert(self.names() =~= old(self).names().push(name@));
            },
        }
    }

    /// The executor of a command: the one it names, else its mode's.
    pub fn resolve_executor(&self, command: &ResolvedCommand) -> (name: String)
        ensures
            name@ == if command.executor@.len() > 0 {
                command.executor@
            } else {
                default_executor_spec(command.mode@)
            },
    {
        if !command.executor.as_str().is_empty() {
            return command.executor.clone();
        }
        default_executor(command.mode.as_str())
    }

    /// Runs a command with its executor; fails when no executor has that
    /// name.
    pub fn execute<C>(&self, command: &ResolvedCommand, ctx: &C) -> (r: Result<(), String>) where
        E: CommandExecutor<C>,

        ensures
            ({
                let name = if command.executor@.len() > 0 {
                    command.executor@
                } else {
                    default_executor_spec(command.mode@)
                };
                &&& !self.names().contains(name) ==> r is Err && r->Err_0@ == "unknown executor: "@
                    + name
                &&& self.names().contains(name) ==> call_ensures(
                    E::execute,
                    (&self.executor_named(name), command, ctx),
                    r,
                )
            }),
    {
        let name = self.resolve_executor(command);
        match self.position(name.as_str()) {
            None => Err(concat("unknown executor: ", name.as_str())),
            Some(i) => self.executors[i].1.execute(command, ctx),
        }
    }
}

/// The executor of view commands: the view is opened by the launcher, so
/// there is nothing left to do.
#[derive(Clone, Copy, Debug)]
pub struct WebviewExecutor;

impl<C> CommandExecutor<C> for WebviewExecutor {
    fn execute(&self, command: &ResolvedCommand, ctx: &C) -> (r: Result<(), String>)
        ensures
            r is Ok,
    {
        Ok(())
    }
}

/// Runs an instant command's script for a plugin.
pub trait InstantScriptRunner {
    fn run_script(&self, plugin_id: &str, script_uri: &str) -> Result<(), String>;
}

/// The executor of instant commands: runs their script in the plugin's
/// background runtime.
pub struct BackgroundRuntimeExecutor<M> {
    pub manager: M,
}

impl<M> BackgroundRuntimeExecutor<M> {
    pub fn new(manager: M) -> (r: Self)
        ensures
            r.manager == manager,
    {
        BackgroundRuntimeExecutor { manager }
    }
}

impl<M: InstantScriptRunner, C> CommandExecutor<C> for BackgroundRuntimeExecutor<M> {
    fn execute(&self, command: &ResolvedCommand, ctx: &C) -> (r: Result<(), String>)
        ensures
            command.script is None ==> r is Err && r->Err_0@ == "instant command '"@
                + command.id@ + "' has no script"@,
            command.script is Some ==> exists|plugin_id: &str, script_uri: &str|
                plugin_id@ == command.plugin_id@ && script_uri@ == command.script->0@
                    && #[trigger] call_ensures(
                    M::run_script,
                    (&self.manager, plugin_id, script_uri),
                    r,
                ),
    {
        match &command.script {
            None => {
                let a = concat("instant command '", command.id.as_str());
                Err(concat(a.as_str(), "' has no script"))
            },
            Some(script) => self.manager.run_script(command.plugin_id.as_str(), script.as_str()),
        }
    }
}

} // verus!
