//! The background runtimes of plugins, one per plugin or one shared, each
//! dropped once it has not been used for the idle timeout.
use crate::background::runtime::PluginRuntime;
use crate::clock::{clock_reading, unix_time_nanos};
use crate::label_map::{has_key, inserted, keep, key_pos, value_of, LabelMap};
use crate::text::{concat, owned};
use vstd::prelude::*;

verus! {

/// Whether plugins share one background runtime.
#[derive(Clone, Copy, Debug, PartialEq, Eq, Structural)]
pub enum RuntimePolicy {
    Shared,
    PerPlugin,
}

/// A background runtime, when it was last used (Unix nanoseconds), and
/// the plugin it was registered for. Its view is the time, the plugin and
/// the runtime itself.
pub struct RuntimeEntry<R> {
    pub runtime: R,
    pub last_used: u64,
    pub plugin_id: String,
}

impl<R> View for RuntimeEntry<R> {
    type V = (u64, Seq<char>, R);

    open spec fn view(&self) -> (u64, Seq<char>, R) {
        (self.last_used, self.plugin_id@, self.runtime)
    }
}

/// The key a plugin's runtime is kept under.
pub open spec fn runtime_key(policy: RuntimePolicy, plugin_id: Seq<char>) -> Seq<char> {
    match policy {
        RuntimePolicy::Shared => "shared"@,
        RuntimePolicy::PerPlugin => plugin_id,
    }
}

/// How long ago `last_used` was at `now`; a time after `now` counts as
/// just now.
pub open spec fn idle_for(now: u64, last_used: u64) -> int {
    if now >= last_used {
        now - last_used
    } else {
        0
    }
}

/// The runtimes still in use at `now`.
pub open spec fn alive<R>(now: u64, timeout: u64) -> spec_fn((u64, Seq<char>, R)) -> bool {
    |e: (u64, Seq<char>, R)| idle_for(now, e.0) < timeout
}

/// What running a plugin's script at `now` leaves and answers: the runtimes
/// idle for the timeout are dropped; then the plugin's runtime, if one is
/// left, is marked used at `now`; if none is, the entries stay as they are
/// after dropping and the call fails with a message naming the plugin and
/// its key. With a runtime, that runtime ran the script and its answer is
/// the answer.
pub open spec fn executed_at<R: PluginRuntime>(
    before: Seq<(Seq<char>, (u64, Seq<char>, R))>,
    policy: RuntimePolicy,
    timeout: u64,
    plugin_id: Seq<char>,
    script_uri: &str,
    now: u64,
    after: Seq<(Seq<char>, (u64, Seq<char>, R))>,
    r: Result<(), String>,
) -> bool {
    let kept = keep(before, alive::<R>(now, timeout));
    let key = runtime_key(policy, plugin_id);
    if has_key(kept, key) {
        &&& after == kept.update(
            key_pos(kept, key),
            (key, (now, value_of(kept, key).1, value_of(kept, key).2)),
        )
        &&& call_ensures(R::execute, (&value_of(kept, key).2, script_uri), r)
    } else {
        &&& after == kept
        &&& r is Err
        &&& r->Err_0@ == "no runtime registered for plugin '"@ + plugin_id + "' (key: '"@ + key
            + "')"@
    }
}

/// The background runtimes, by key.
pub struct BackgroundRuntimeManager<R> {
    runtimes: LabelMap<RuntimeEntry<R>>,
    policy: RuntimePolicy,
    idle_timeout: u64,
}

impl<R: PluginRuntime> BackgroundRuntimeManager<R> {
    /// The runtimes in key order: when each was last used, its plugin, and
    /// the runtime.
    pub closed spec fn entries(&self) -> Seq<(Seq<char>, (u64, Seq<char>, R))> {
        self.runtimes.entries()
    }

    pub closed spec fn policy_spec(&self) -> RuntimePolicy {
        self.policy
    }

    /// The idle timeout in nanoseconds.
    pub closed spec fn timeout(&self) -> u64 {
        self.idle_timeout
    }

    pub open spec fn wf(&self) -> bool {
        crate::label_map::keys_sorted(self.entries())
    }

    /// No runtimes yet; `idle_timeout` is in nanoseconds.
    pub fn new(policy: RuntimePolicy, idle_timeout: u64) -> (m: Self)
        ensures
            m.wf(),
            m.entries() == Seq::<(Seq<char>, (u64, Seq<char>, R))>::empty(),
            m.policy_spec() == policy,
            m.timeout() == idle_timeout,
    {
        BackgroundRuntimeManager { runtimes: LabelMap::new(), policy, idle_timeout }
    }

    /// The key a plugin's runtime is kept under.
    pub fn resolve_key(&self, plugin_id: &str) -> (k: String)
        ensures
            k@ == runtime_key(self.policy_spec(), plugin_id@),
    {
        match self.policy {
            RuntimePolicy::Shared => owned("shared"),
            RuntimePolicy::PerPlugin => owned(plugin_id),
        }
    }

    /// Keeps `runtime` for the plugin, used at `now`, replacing the one
    /// under the same key.
    pub fn register_runtime_at(&mut self, plugin_id: &str, runtime: R, now: u64)
        requires
            old(self).wf(),
        ensures
            final(self).wf(),
            final(self).policy_spec() == old(self).policy_spec(),
            final(self).timeout() == old(self).timeout(),
            final(self).entries() == inserted(
                old(self).entries(),
                runtime_key(old(self).policy_spec(), plugin_id@),
                (now, plugin_id@, runtime),
            ),
    {
        let key = self.resolve_key(plugin_id);
        let entry = RuntimeEntry { runtime, last_used: now, plugin_id: owned(plugin_id) };
        let _ = self.runtimes.insert(key, entry);
    }

    /// Keeps `runtime` for the plugin, used now: `register_runtime_at` at
    /// the clock's current reading.
    pub fn register_runtime(&mut self, plugin_id: &str, runtime: R)
        requires
            old(self).wf(),
        ensures
            final(self).wf(),
            final(self).policy_spec() == old(self).policy_spec(),
            final(self).timeout() == old(self).timeout(),
            exists|now: u64|
                #[trigger] clock_reading(now) && final(self).entries() == inserted(
                    old(self).entries(),
                    runtime_key(old(self).policy_spec(), plugin_id@),
                    (now, plugin_id@, runtime),
                ),
    {
        let now = unix_time_nanos();
        self.register_runtime_at(plugin_id, runtime, now);
    }

    /// Runs a plugin's script at `now`: runtimes idle for the timeout are
    /// dropped first; then the plugin's runtime is marked used and runs the
    /// script, or, when it has none, the call fails.
    pub fn execute_at(&mut self, plugin_id: &str, script_uri: &str, now: u64) -> (r: Result<
        (),
        String,
    >)
        requires
            old(self).wf(),
        ensures
            final(self).wf(),
            final(self).policy_spec() == old(self).policy_spec(),
            final(self).timeout() == old(self).timeout(),
            executed_at(
                old(self).entries(),
                old(self).policy_spec(),
                old(self).timeout(),
                plugin_id@,
                script_uri,
                now,
                final(self).entries(),
                r,
            ),
    {
        let key = self.resolve_key(plugin_id);
        let timeout = self.idle_timeout;
        let f = |e: &RuntimeEntry<R>| -> (b: bool)
            ensures
                b == (idle_for(now, e.last_used) < timeout),
            {
                let idle = if now >= e.last_used {
                    now - e.last_used
                } else {
                    0
                };
                idle < timeout
            };
        let _ = self.runtimes.retain(f, Ghost(alive::<R>(now, timeout)));
        match self.runtimes.find(key.as_str()) {
            Some(i) => {
                let g = |e: RuntimeEntry<R>| -> (n: RuntimeEntry<R>)
                    ensures
                        n@ == (now, e@.1, e@.2),
                    { RuntimeEntry { runtime: e.runtime, last_used: now, plugin_id: e.plugin_id } };
                proof {
                    crate::label_map::lemma_sorted_unique(
                        self.runtimes.entries(),
                        i as int,
                        key_pos(self.runtimes.entries(), key@),
                    );
                }
                self.runtimes.update_value_at(
                    i,
                    g,
                    Ghost(|v: (u64, Seq<char>, R)| (now, v.1, v.2)),
                );
                let entry = self.runtimes.value_at(i);
                entry.runtime.execute(script_uri)
            },
            None => {
                let a = concat("no runtime registered for plugin '", plugin_id);
                let b = concat(a.as_str(), "' (key: '");
                let c = concat(b.as_str(), key.as_str());
                Err(concat(c.as_str(), "')"))
            },
        }
    }

    /// Runs a plugin's script now: `execute_at` at the clock's current
    /// reading.
    pub fn execute(&mut self, plugin_id: &str, script_uri: &str) -> (r: Result<(), String>)
        requires
            old(self).wf(),
        ensures
            final(self).wf(),
            final(self).policy_spec() == old(self).policy_spec(),
            final(self).timeout() == old(self).timeout(),
            exists|now: u64|
                #[trigger] clock_reading(now) && executed_at(
                    old(self).entries(),
                    old(self).policy_spec(),
                    old(self).timeout(),
                    plugin_id@,
                    script_uri,
                    now,
                    final(self).entries(),
                    r,
                ),
    {
        let now = unix_time_nanos();
        self.execute_at(plugin_id, script_uri, now)
    }
}

} // verus!
