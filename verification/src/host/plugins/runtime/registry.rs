//! Registry of plugin view runtimes: each runtime is kept under its id and is
//! found again by id, by the surface that shows it, or by its plugin command.
use vstd::prelude::*;

use crate::clock::now_rfc3339;
use crate::host::plugins::runtime::model::{
    PluginRuntimeContext, PluginRuntimeLifecycle, RuntimeContextView,
};
use crate::host::plugins::runtime::search_bridge::{not_of_runtime, WebviewSearchBridge};
use crate::label_map::{
    dropped_keys, first_index, has_key, inserted, keep, key_pos, keys_sorted, lemma_first_index,
    lemma_sorted_unique, lemma_value_of_at, value_of, LabelMap,
};
use crate::manifest::RuntimePolicy;
use crate::text::{str_eq, views};

verus! {

/// What a new runtime is made from.
#[derive(Clone, Debug)]
pub struct PluginRuntimeRegistration {
    pub plugin_id: String,
    pub command_id: String,
    pub plugin_name: String,
    pub title: String,
    pub entry_url: String,
    pub surface_id: String,
    pub permissions: Vec<String>,
    pub trusted: bool,
    pub policy: RuntimePolicy,
}

/// Why a runtime was not registered.
#[derive(Clone, Debug)]
pub enum RuntimeRegistryError {
    /// A runtime with this id exists.
    RuntimeExists(String),
    /// The surface already shows a runtime.
    SurfaceBound(String),
    /// The command is singleton and has these runtimes.
    SingletonExists(Vec<String>),
}

pub type RuntimeEntries = Seq<(Seq<char>, RuntimeContextView)>;

/// The view of an optional runtime.
pub open spec fn opt_view(r: Option<PluginRuntimeContext>) -> Option<RuntimeContextView> {
    match r {
        Some(c) => Some(c@),
        None => None,
    }
}

/// The views of a sequence of runtimes.
pub open spec fn context_views(cs: Seq<PluginRuntimeContext>) -> Seq<RuntimeContextView> {
    cs.map_values(|c: PluginRuntimeContext| c@)
}

pub open spec fn on_surface(surface_id: Seq<char>) -> spec_fn(RuntimeContextView) -> bool {
    |c: RuntimeContextView| c.surface_id == surface_id
}

pub open spec fn for_command(plugin_id: Seq<char>, command_id: Seq<char>) -> spec_fn(
    RuntimeContextView,
) -> bool {
    |c: RuntimeContextView| c.plugin_id == plugin_id && c.command_id == command_id
}

/// Position of the runtime shown on the surface (the length when none is).
pub open spec fn surface_pos(rs: RuntimeEntries, surface_id: Seq<char>) -> nat {
    first_index(rs, on_surface(surface_id))
}

/// Position of the first runtime, in id order, of the plugin command.
pub open spec fn command_pos(rs: RuntimeEntries, plugin_id: Seq<char>, command_id: Seq<char>) -> nat {
    first_index(rs, for_command(plugin_id, command_id))
}

/// The runtimes of the plugin command, in id order.
pub open spec fn command_runtimes(
    rs: RuntimeEntries,
    plugin_id: Seq<char>,
    command_id: Seq<char>,
) -> Seq<RuntimeContextView> {
    keep(rs, for_command(plugin_id, command_id)).map_values(
        |e: (Seq<char>, RuntimeContextView)| e.1,
    )
}

/// The ids of the runtimes.
pub open spec fn context_ids(cs: Seq<RuntimeContextView>) -> Seq<Seq<char>> {
    cs.map_values(|c: RuntimeContextView| c.id)
}

/// The runtime with id `id`.
pub open spec fn runtime_spec(rs: RuntimeEntries, id: Seq<char>) -> Option<RuntimeContextView> {
    if has_key(rs, id) {
        Some(value_of(rs, id))
    } else {
        None
    }
}

/// Sorted by id, each runtime stored under its own id, and no surface shows
/// two runtimes.
pub open spec fn runtimes_wf(rs: RuntimeEntries) -> bool {
    &&& keys_sorted(rs)
    &&& forall|i: int| 0 <= i < rs.len() ==> (#[trigger] rs[i]).0 == rs[i].1.id
    &&& forall|i: int, j: int|
        0 <= i < rs.len() && 0 <= j < rs.len() && i != j ==> (#[trigger] rs[i]).1.surface_id != (
        #[trigger] rs[j]).1.surface_id
}

/// What registering `reg` under `id` gives and leaves, `before` the
/// registrations and `after` them: the id taken, the surface already showing
/// a runtime, or (for a singleton command) the command already having one
/// each refuse the registration with their error and change nothing;
/// otherwise the fresh runtime is stored under `id`.
pub open spec fn register_outcome(
    before: RuntimeEntries,
    reg: PluginRuntimeRegistration,
    id: String,
    r: Result<PluginRuntimeContext, RuntimeRegistryError>,
    after: RuntimeEntries,
) -> bool {
    &&& (has_key(before, id@) ==> r == Err::<PluginRuntimeContext, RuntimeRegistryError>(
        RuntimeRegistryError::RuntimeExists(id),
    ))
    &&& (!has_key(before, id@) && surface_pos(before, reg.surface_id@) < before.len() ==> r
        == Err::<PluginRuntimeContext, RuntimeRegistryError>(
        RuntimeRegistryError::SurfaceBound(reg.surface_id),
    ))
    &&& (!has_key(before, id@) && surface_pos(before, reg.surface_id@) == before.len() && reg.policy
        == RuntimePolicy::Singleton && command_pos(before, reg.plugin_id@, reg.command_id@)
        < before.len() ==> (r matches Err(RuntimeRegistryError::SingletonExists(ids)) && views(
        ids@,
    ) == context_ids(command_runtimes(before, reg.plugin_id@, reg.command_id@))))
    &&& (r is Err ==> after == before)
    &&& (r is Ok <==> (!has_key(before, id@) && surface_pos(before, reg.surface_id@) == before.len()
        && (reg.policy == RuntimePolicy::Singleton ==> command_pos(
        before,
        reg.plugin_id@,
        reg.command_id@,
    ) == before.len())))
    &&& (r matches Ok(c) ==> (registered_context(reg, id, c) && after == inserted(
        before,
        id@,
        c@,
    )))
}

/// The runtime a fresh registration makes.
pub open spec fn registered_context(
    r: PluginRuntimeRegistration,
    id: String,
    c: PluginRuntimeContext,
) -> bool {
    &&& c.id == id
    &&& c.plugin_id == r.plugin_id
    &&& c.command_id == r.command_id
    &&& c.plugin_name == r.plugin_name
    &&& c.title == r.title
    &&& c.entry_url == r.entry_url
    &&& c.surface_id == r.surface_id
    &&& c.permissions == r.permissions
    &&& c.trusted == r.trusted
    &&& c.policy == r.policy
    &&& c.lifecycle == PluginRuntimeLifecycle::Created
    &&& !c.pending_enter
    &&& !c.entered
    &&& c.created_at == c.updated_at
}

/// `mark_ready`: ready, and active at once when focus entered earlier.
pub open spec fn ready_transition(c: RuntimeContextView) -> RuntimeContextView {
    if c.pending_enter {
        RuntimeContextView {
            lifecycle: PluginRuntimeLifecycle::Active,
            pending_enter: false,
            entered: true,
            ..c
        }
    } else {
        RuntimeContextView { lifecycle: PluginRuntimeLifecycle::Ready, ..c }
    }
}

/// `mark_focus_enter`: a ready or active runtime becomes active and entered;
/// any other waits for readiness.
pub open spec fn focus_enter_transition(c: RuntimeContextView) -> RuntimeContextView {
    if c.lifecycle == PluginRuntimeLifecycle::Ready || c.lifecycle
        == PluginRuntimeLifecycle::Active {
        RuntimeContextView {
            lifecycle: PluginRuntimeLifecycle::Active,
            pending_enter: false,
            entered: true,
            ..c
        }
    } else {
        RuntimeContextView { pending_enter: true, ..c }
    }
}

/// `mark_leave`: no longer entered; back to ready unless closed.
pub open spec fn leave_transition(c: RuntimeContextView) -> RuntimeContextView {
    RuntimeContextView {
        entered: false,
        pending_enter: false,
        lifecycle: if c.lifecycle == PluginRuntimeLifecycle::Closed {
            PluginRuntimeLifecycle::Closed
        } else {
            PluginRuntimeLifecycle::Ready
        },
        ..c
    }
}

/// `c` updated as `next` says, with a fresh update time.
pub open spec fn stamped(next: RuntimeContextView, r: RuntimeContextView) -> bool {
    r == (RuntimeContextView { updated_at: r.updated_at, ..next })
}

/// Result and entries of updating runtime `id` to `next` (with a fresh stamp).
pub open spec fn updated(
    old_rs: RuntimeEntries,
    new_rs: RuntimeEntries,
    id: Seq<char>,
    next: spec_fn(RuntimeContextView) -> RuntimeContextView,
    r: Option<PluginRuntimeContext>,
) -> bool {
    if has_key(old_rs, id) {
        &&& r is Some
        &&& stamped(next(value_of(old_rs, id)), r->0@)
        &&& new_rs == old_rs.update(key_pos(old_rs, id), (id, r->0@))
    } else {
        r is None && new_rs == old_rs
    }
}

pub struct PluginRuntimeRegistry {
    runtimes_by_id: LabelMap<PluginRuntimeContext>,
    search_bridge: WebviewSearchBridge,
}

impl PluginRuntimeRegistry {
    /// The runtimes in id order, each under its id.
    pub closed spec fn runtimes(&self) -> RuntimeEntries {
        self.runtimes_by_id.entries()
    }

    /// The search providers the runtimes registered.
    pub closed spec fn bridge(&self) -> WebviewSearchBridge {
        self.search_bridge
    }

    /// Sorted by id, each runtime stored under its own id, and no surface
    /// shows two runtimes.
    pub open spec fn wf(&self) -> bool {
        &&& runtimes_wf(self.runtimes())
        &&& self.bridge().wf()
    }

    pub fn new(search_bridge: WebviewSearchBridge) -> (r: Self)
        requires
            search_bridge.wf(),
        ensures
            r.wf(),
            r.runtimes() == Seq::<(Seq<char>, RuntimeContextView)>::empty(),
            r.bridge() == search_bridge,
    {
        PluginRuntimeRegistry { runtimes_by_id: LabelMap::new(), search_bridge }
    }

    /// The search providers the runtimes registered.
    pub fn search_bridge(&self) -> (b: &WebviewSearchBridge)
        ensures
            *b == self.bridge(),
    {
        &self.search_bridge
    }

    /// Records a search provider of a runtime.
    pub fn search_bridge_mut(&mut self) -> (b: &mut WebviewSearchBridge)
        requires
            old(self).wf(),
        ensures
            *b == old(self).bridge(),
            final(self).runtimes() == old(self).runtimes(),
            final(self).bridge() == *final(b),
    {
        &mut self.search_bridge
    }

    fn surface_index(&self, surface_id: &str) -> (r: usize)
        requires
            self.wf(),
        ensures
            r == surface_pos(self.runtimes(), surface_id@),
    {
        let ghost s = self.runtimes();
        let ghost p = on_surface(surface_id@);
        proof {
            lemma_first_index(s, p);
        }
        let mut i: usize = 0;
        while i < self.runtimes_by_id.len()
            invariant
                s == self.runtimes(),
                p == on_surface(surface_id@),
                i <= first_index(s, p),
                first_index(s, p) <= s.len(),
                first_index(s, p) < s.len() ==> p(s[first_index(s, p) as int].1),
                forall|j: int| 0 <= j < first_index(s, p) ==> !p(#[trigger] s[j].1),
            decreases s.len() - i,
        {
            if str_eq(self.runtimes_by_id.value_at(i).surface_id.as_str(), surface_id) {
                return i;
            }
            i = i + 1;
        }
        i
    }

    fn command_index(&self, plugin_id: &str, command_id: &str) -> (r: usize)
        requires
            self.wf(),
        ensures
            r == command_pos(self.runtimes(), plugin_id@, command_id@),
    {
        let ghost s = self.runtimes();
        let ghost p = for_command(plugin_id@, command_id@);
        proof {
            lemma_first_index(s, p);
        }
        let mut i: usize = 0;
        while i < self.runtimes_by_id.len()
            invariant
                s == self.runtimes(),
                p == for_command(plugin_id@, command_id@),
                i <= first_index(s, p),
                first_index(s, p) <= s.len(),
                first_index(s, p) < s.len() ==> p(s[first_index(s, p) as int].1),
                forall|j: int| 0 <= j < first_index(s, p) ==> !p(#[trigger] s[j].1),
            decreases s.len() - i,
        {
            let c = self.runtimes_by_id.value_at(i);
            if str_eq(c.plugin_id.as_str(), plugin_id) && str_eq(c.command_id.as_str(), command_id) {
                return i;
            }
            i = i + 1;
        }
        i
    }

    /// The runtimes of the plugin command, in id order.
    pub fn runtimes_for_plugin_command(&self, plugin_id: &str, command_id: &str) -> (r: Vec<
        PluginRuntimeContext,
    >)
        requires
            self.wf(),
        ensures
            context_views(r@) == command_runtimes(self.runtimes(), plugin_id@, command_id@),
    {
        let ghost s = self.runtimes();
        let ghost p = for_command(plugin_id@, command_id@);
        let mut r: Vec<PluginRuntimeContext> = Vec::new();
        let mut i: usize = 0;
        while i < self.runtimes_by_id.len()
            invariant
                s == self.runtimes(),
                p == for_command(plugin_id@, command_id@),
                i <= s.len(),
                context_views(r@) == keep(s.take(i as int), p).map_values(
                    |e: (Seq<char>, RuntimeContextView)| e.1,
                ),
            decreases s.len() - i,
        {
            let c = self.runtimes_by_id.value_at(i);
            assert(s.take(i + 1).drop_last() =~= s.take(i as int));
            assert(s.take(i + 1).last() == s[i as int]);
            if str_eq(c.plugin_id.as_str(), plugin_id) && str_eq(c.command_id.as_str(), command_id) {
                let ghost before = r@;
                r.push(c.duplicate());
                assert(context_views(r@) =~= context_views(before).push(s[i as int].1));
                assert(context_views(r@) =~= keep(s.take(i + 1), p).map_values(
                    |e: (Seq<char>, RuntimeContextView)| e.1,
                ));
            }
            i = i + 1;
        }
        assert(s.take(s.len() as int) =~= s);
        r
    }

    /// A fresh random runtime id: the text of a random version 4 UUID.
    pub fn next_runtime_id(&self) -> (id: String)
        ensures
            crate::ids::is_uuid_v4_text(id@),
    {
        crate::ids::new_uuid_string()
    }

    /// Registers a runtime under `id`. Fails when the id is taken, when the
    /// surface already shows a runtime, or when the command is singleton
    /// and already has a runtime.
    pub fn register_runtime(&mut self, registration: PluginRuntimeRegistration, id: String) -> (r:
        Result<PluginRuntimeContext, RuntimeRegistryError>)
        requires
            old(self).wf(),
        ensures
            final(self).wf(),
            final(self).bridge() == old(self).bridge(),
            register_outcome(old(self).runtimes(), registration, id, r, final(self).runtimes()),
    {
        if self.runtimes_by_id.find(id.as_str()).is_some() {
            return Err(RuntimeRegistryError::RuntimeExists(id));
        }
        if self.surface_index(registration.surface_id.as_str()) < self.runtimes_by_id.len() {
            return Err(RuntimeRegistryError::SurfaceBound(registration.surface_id));
        }
        if registration.policy == RuntimePolicy::Singleton {
            if self.command_index(registration.plugin_id.as_str(), registration.command_id.as_str())
                < self.runtimes_by_id.len() {
                let existing = self.runtimes_for_plugin_command(
                    registration.plugin_id.as_str(),
                    registration.command_id.as_str(),
                );
                let mut ids: Vec<String> = Vec::new();
                let mut k: usize = 0;
                while k < existing.len()
                    invariant
                        k <= existing.len(),
                        views(ids@) == context_ids(context_views(existing@.take(k as int))),
                    decreases existing.len() - k,
                {
                    let ghost before = ids@;
                    ids.push(existing[k].id.clone());
                    assert(ids@ == before.push(existing@[k as int].id));
                    assert(existing@.take(k + 1) =~= existing@.take(k as int).push(existing@[k as int]));
                    assert(views(ids@) =~= views(before).push(existing@[k as int].id@));
                    assert(context_ids(context_views(existing@.take(k + 1))) =~= context_ids(
                        context_views(existing@.take(k as int)),
                    ).push(existing@[k as int].id@));
                    k = k + 1;
                }
                assert(existing@.take(existing@.len() as int) =~= existing@);
                assert(context_views(existing@) == command_runtimes(
                    self.runtimes(),
                    registration.plugin_id@,
                    registration.command_id@,
                ));
                return Err(RuntimeRegistryError::SingletonExists(ids));
            }
        }
        proof {
            lemma_first_index(self.runtimes(), on_surface(registration.surface_id@));
            lemma_first_index(
                self.runtimes(),
                for_command(registration.plugin_id@, registration.command_id@),
            );
        }
        let now = now_rfc3339();
        let context = PluginRuntimeContext {
            id: id.clone(),
            plugin_id: registration.plugin_id,
            command_id: registration.command_id,
            plugin_name: registration.plugin_name,
            title: registration.title,
            entry_url: registration.entry_url,
            surface_id: registration.surface_id,
            permissions: registration.permissions,
            trusted: registration.trusted,
            policy: registration.policy,
            lifecycle: PluginRuntimeLifecycle::Created,
            pending_enter: false,
            entered: false,
            created_at: now.clone(),
            updated_at: now,
        };
        let ghost pre = self.runtimes();
        proof {
            lemma_first_index(pre, on_surface(context.surface_id@));
            crate::label_map::lemma_lower_bound(pre, id@);
        }
        self.runtimes_by_id.insert(id, context.duplicate());
        proof {
            let post = self.runtimes();
            let p = crate::label_map::lower_bound(pre, context.id@) as int;
            assert(post == pre.insert(p, (context.id@, context@)));
            assert forall|i: int| 0 <= i < post.len() implies (#[trigger] post[i]).0
                == post[i].1.id by {
                if i < p {
                    assert(post[i] == pre[i]);
                } else if i > p {
                    assert(post[i] == pre[i - 1]);
                }
            }
            assert forall|i: int, j: int|
                0 <= i < post.len() && 0 <= j < post.len() && i != j implies (
            #[trigger] post[i]).1.surface_id != (#[trigger] post[j]).1.surface_id by {
                let oi = if i < p {
                    i
                } else {
                    i - 1
                };
                let oj = if j < p {
                    j
                } else {
                    j - 1
                };
                if i != p && j != p {
                    assert(post[i] == pre[oi] && post[j] == pre[oj]);
                } else if i == p {
                    assert(post[j] == pre[oj]);
                    assert(!on_surface(context.surface_id@)(pre[oj].1));
                } else {
                    assert(post[i] == pre[oi]);
                    assert(!on_surface(context.surface_id@)(pre[oi].1));
                }
            }
        }
        Ok(context)
    }

    /// The runtime with id `id`.
    pub fn runtime(&self, id: &str) -> (r: Option<PluginRuntimeContext>)
        requires
            self.wf(),
        ensures
            opt_view(r) == runtime_spec(self.runtimes(), id@),
    {
        match self.runtimes_by_id.get(id) {
            Some(c) => Some(c.duplicate()),
            None => None,
        }
    }

    /// The runtime shown on the surface.
    pub fn runtime_for_surface_id(&self, surface_id: &str) -> (r: Option<PluginRuntimeContext>)
        requires
            self.wf(),
        ensures
            surface_pos(self.runtimes(), surface_id@) < self.runtimes().len() ==> opt_view(r)
                == Some(self.runtimes()[surface_pos(self.runtimes(), surface_id@) as int].1),
            surface_pos(self.runtimes(), surface_id@) >= self.runtimes().len() ==> r is None,
    {
        let i = self.surface_index(surface_id);
        if i < self.runtimes_by_id.len() {
            Some(self.runtimes_by_id.value_at(i).duplicate())
        } else {
            None
        }
    }

    /// The runtime of the plugin command with the smallest id.
    pub fn runtime_for_plugin_command(&self, plugin_id: &str, command_id: &str) -> (r: Option<
        PluginRuntimeContext,
    >)
        requires
            self.wf(),
        ensures
            command_pos(self.runtimes(), plugin_id@, command_id@) < self.runtimes().len()
                ==> opt_view(r) == Some(
                self.runtimes()[command_pos(self.runtimes(), plugin_id@, command_id@) as int].1,
            ),
            command_pos(self.runtimes(), plugin_id@, command_id@) >= self.runtimes().len() ==> r
                is None,
    {
        let i = self.command_index(plugin_id, command_id);
        if i < self.runtimes_by_id.len() {
            Some(self.runtimes_by_id.value_at(i).duplicate())
        } else {
            None
        }
    }

    /// Stores `c` in place of runtime `i`, with a fresh update time.
    fn replace_at(&mut self, i: usize, c: PluginRuntimeContext) -> (r: PluginRuntimeContext)
        requires
            old(self).wf(),
            i < old(self).runtimes().len(),
            c.id@ == old(self).runtimes()[i as int].0,
            c.surface_id@ == old(self).runtimes()[i as int].1.surface_id,
        ensures
            final(self).wf(),
            stamped(c@, r@),
            final(self).runtimes() == old(self).runtimes().update(
                i as int,
                (old(self).runtimes()[i as int].0, r@),
            ),
            final(self).bridge() == old(self).bridge(),
    {
        let mut c = c;
        c.updated_at = now_rfc3339();
        let ghost pre = self.runtimes();
        self.runtimes_by_id.set_value_at(i, c.duplicate());
        proof {
            let post = self.runtimes();
            assert forall|j: int| 0 <= j < post.len() implies (#[trigger] post[j]).0
                == post[j].1.id by {
                if j != i {
                    assert(post[j] == pre[j]);
                }
            }
            assert forall|a: int, b: int|
                0 <= a < post.len() && 0 <= b < post.len() && a != b implies (
            #[trigger] post[a]).1.surface_id != (#[trigger] post[b]).1.surface_id by {
                assert(post[a].1.surface_id == pre[a].1.surface_id);
                assert(post[b].1.surface_id == pre[b].1.surface_id);
            }
        }
        c
    }

    /// Position of runtime `id`, with the facts callers need.
    fn position(&self, id: &str) -> (r: Option<usize>)
        requires
            self.wf(),
        ensures
            r is Some <==> has_key(self.runtimes(), id@),
            r matches Some(i) ==> i < self.runtimes().len() && key_pos(self.runtimes(), id@) == i
                && self.runtimes()[i as int].0 == id@ && value_of(self.runtimes(), id@)
                == self.runtimes()[i as int].1,
    {
        let r = self.runtimes_by_id.find(id);
        if let Some(i) = r {
            proof {
                lemma_sorted_unique(self.runtimes(), i as int, key_pos(self.runtimes(), id@));
            }
        }
        r
    }

    /// Sets the lifecycle of runtime `id`.
    pub fn mark_lifecycle(&mut self, id: &str, lifecycle: PluginRuntimeLifecycle) -> (r: Option<
        PluginRuntimeContext,
    >)
        requires
            old(self).wf(),
        ensures
            final(self).wf(),
            final(self).bridge() == old(self).bridge(),
            updated(
                old(self).runtimes(),
                final(self).runtimes(),
                id@,
                |c: RuntimeContextView| RuntimeContextView { lifecycle: lifecycle, ..c },
                r,
            ),
    {
        match self.position(id) {
            None => None,
            Some(i) => {
                let mut c = self.runtimes_by_id.value_at(i).duplicate();
                c.lifecycle = lifecycle;
                Some(self.replace_at(i, c))
            },
        }
    }

    /// Runtime `id` reports it is ready.
    pub fn mark_ready(&mut self, id: &str) -> (r: Option<PluginRuntimeContext>)
        requires
            old(self).wf(),
        ensures
            final(self).wf(),
            final(self).bridge() == old(self).bridge(),
            updated(old(self).runtimes(), final(self).runtimes(), id@, |c: RuntimeContextView| ready_transition(c), r),
    {
        match self.position(id) {
            None => None,
            Some(i) => {
                let mut c = self.runtimes_by_id.value_at(i).duplicate();
                c.lifecycle = PluginRuntimeLifecycle::Ready;
                if c.pending_enter {
                    c.lifecycle = PluginRuntimeLifecycle::Active;
                    c.pending_enter = false;
                    c.entered = true;
                }
                Some(self.replace_at(i, c))
            },
        }
    }

    /// Focus enters runtime `id`.
    pub fn mark_focus_enter(&mut self, id: &str) -> (r: Option<PluginRuntimeContext>)
        requires
            old(self).wf(),
        ensures
            final(self).wf(),
            final(self).bridge() == old(self).bridge(),
            updated(old(self).runtimes(), final(self).runtimes(), id@, |c: RuntimeContextView| focus_enter_transition(c), r),
    {
        match self.position(id) {
            None => None,
            Some(i) => {
                let mut c = self.runtimes_by_id.value_at(i).duplicate();
                if c.lifecycle == PluginRuntimeLifecycle::Ready || c.lifecycle
                    == PluginRuntimeLifecycle::Active {
                    c.lifecycle = PluginRuntimeLifecycle::Active;
                    c.pending_enter = false;
                    c.entered = true;
                } else {
                    c.pending_enter = true;
                }
                Some(self.replace_at(i, c))
            },
        }
    }

    /// Focus leaves runtime `id`.
    pub fn mark_leave(&mut self, id: &str) -> (r: Option<PluginRuntimeContext>)
        requires
            old(self).wf(),
        ensures
            final(self).wf(),
            final(self).bridge() == old(self).bridge(),
            updated(old(self).runtimes(), final(self).runtimes(), id@, |c: RuntimeContextView| leave_transition(c), r),
    {
        match self.position(id) {
            None => None,
            Some(i) => {
                let mut c = self.runtimes_by_id.value_at(i).duplicate();
                c.entered = false;
                c.pending_enter = false;
                if c.lifecycle != PluginRuntimeLifecycle::Closed {
                    c.lifecycle = PluginRuntimeLifecycle::Ready;
                }
                Some(self.replace_at(i, c))
            },
        }
    }

    /// Sets the title of runtime `id`.
    pub fn mark_title(&mut self, id: &str, title: String) -> (r: Option<PluginRuntimeContext>)
        requires
            old(self).wf(),
        ensures
            final(self).wf(),
            final(self).bridge() == old(self).bridge(),
            updated(
                old(self).runtimes(),
                final(self).runtimes(),
                id@,
                |c: RuntimeContextView| RuntimeContextView { title: title@, ..c },
                r,
            ),
    {
        match self.position(id) {
            None => None,
            Some(i) => {
                let mut c = self.runtimes_by_id.value_at(i).duplicate();
                c.title = title;
                Some(self.replace_at(i, c))
            },
        }
    }

    /// Removes the runtime with id `target`, or else the one shown on surface
    /// `target`, together with the search providers it registered.
    pub fn remove(&mut self, target: &str) -> (r: Option<PluginRuntimeContext>)
        requires
            old(self).wf(),
        ensures
            final(self).wf(),
            ({
                let rs = old(self).runtimes();
                let i = if has_key(rs, target@) {
                    key_pos(rs, target@)
                } else {
                    surface_pos(rs, target@) as int
                };
                if i < rs.len() {
                    &&& opt_view(r) == Some(rs[i].1)
                    &&& final(self).runtimes() == rs.remove(i)
                    &&& final(self).bridge().providers() == keep(
                        old(self).bridge().providers(),
                        not_of_runtime(rs[i].1.id),
                    )
                } else {
                    &&& r is None
                    &&& final(self).runtimes() == rs
                    &&& final(self).bridge() == old(self).bridge()
                }
            }),
    {
        let ghost pre = self.runtimes();
        let i = match self.position(target) {
            Some(i) => i,
            None => self.surface_index(target),
        };
        if i >= self.runtimes_by_id.len() {
            return None;
        }
        let (_, context) = self.runtimes_by_id.remove_at(i);
        let _ = self.search_bridge.unregister_runtime(context.id.as_str());
        proof {
            let post = self.runtimes();
            assert forall|j: int| 0 <= j < post.len() implies (#[trigger] post[j]).0
                == post[j].1.id by {
                if j < i {
                    assert(post[j] == pre[j]);
                } else {
                    assert(post[j] == pre[j + 1]);
                }
            }
            assert forall|a: int, b: int|
                0 <= a < post.len() && 0 <= b < post.len() && a != b implies (
            #[trigger] post[a]).1.surface_id != (#[trigger] post[b]).1.surface_id by {
                let oa = if a < i {
                    a
                } else {
                    a + 1
                };
                let ob = if b < i {
                    b
                } else {
                    b + 1
                };
                assert(post[a] == pre[oa] && post[b] == pre[ob]);
            }
        }
        Some(context)
    }
}


/// Keeping the entries that satisfy `p`, when exactly the one at `idx` does,
/// leaves just that entry.
proof fn lemma_keep_single<V>(s: Seq<(Seq<char>, V)>, p: spec_fn(V) -> bool, idx: int)
    requires
        0 <= idx < s.len(),
        p(s[idx].1),
        forall|i: int| 0 <= i < s.len() && i != idx ==> !p(#[trigger] s[i].1),
    ensures
        keep(s, p) == seq![s[idx]],
    decreases s.len(),
{
    if idx == s.len() - 1 {
        lemma_keep_none(s.drop_last(), p);
    } else {
        assert forall|i: int| 0 <= i < s.drop_last().len() && i != idx implies !p(
            #[trigger] s.drop_last()[i].1,
        ) by {
            assert(s.drop_last()[i] == s[i]);
        }
        lemma_keep_single(s.drop_last(), p, idx);
        assert(!p(s.last().1));
    }
}

/// Keeping the entries that satisfy `p`, when none does, leaves nothing.
proof fn lemma_keep_none<V>(s: Seq<(Seq<char>, V)>, p: spec_fn(V) -> bool)
    requires
        forall|i: int| 0 <= i < s.len() ==> !p(#[trigger] s[i].1),
    ensures
        keep(s, p) == Seq::<(Seq<char>, V)>::empty(),
    decreases s.len(),
{
    if s.len() > 0 {
        assert forall|i: int| 0 <= i < s.drop_last().len() implies !p(
            #[trigger] s.drop_last()[i].1,
        ) by {
            assert(s.drop_last()[i] == s[i]);
        }
        lemma_keep_none(s.drop_last(), p);
        assert(!p(s[s.len() - 1].1));
    }
}

/// A runtime registered under a fresh id on an unbound surface is found again
/// by its id and by its surface; the entries stay well formed; and when its
/// command had no runtime before, it is the command's only runtime.
#[verifier::spinoff_prover]
#[verifier::rlimit(50)]
pub proof fn law_registered_runtime_is_found(rs: RuntimeEntries, c: RuntimeContextView)
    requires
        runtimes_wf(rs),
        !has_key(rs, c.id),
        surface_pos(rs, c.surface_id) == rs.len(),
    ensures
        runtimes_wf(inserted(rs, c.id, c)),
        runtime_spec(inserted(rs, c.id, c), c.id) == Some(c),
        surface_pos(inserted(rs, c.id, c), c.surface_id) < inserted(rs, c.id, c).len(),
        inserted(rs, c.id, c)[surface_pos(inserted(rs, c.id, c), c.surface_id) as int].1 == c,
        command_pos(rs, c.plugin_id, c.command_id) == rs.len() ==> command_runtimes(
            inserted(rs, c.id, c),
            c.plugin_id,
            c.command_id,
        ) == seq![c],
{
    let t = inserted(rs, c.id, c);
    crate::label_map::law_inserted_lookup(rs, c.id, c);
    let p = crate::label_map::lower_bound(rs, c.id) as int;
    crate::label_map::lemma_lower_bound(rs, c.id);
    lemma_first_index(rs, on_surface(c.surface_id));
    assert(t == rs.insert(p, (c.id, c)));
    assert(runtimes_wf(t)) by {
        assert forall|i: int| 0 <= i < t.len() implies (#[trigger] t[i]).0 == t[i].1.id by {
            if i < p {
                assert(t[i] == rs[i]);
            } else if i > p {
                assert(t[i] == rs[i - 1]);
            }
        }
        assert forall|i: int, j: int| 0 <= i < t.len() && 0 <= j < t.len() && i != j implies (
        #[trigger] t[i]).1.surface_id != (#[trigger] t[j]).1.surface_id by {
            let oi = if i < p {
                i
            } else {
                i - 1
            };
            let oj = if j < p {
                j
            } else {
                j - 1
            };
            if i != p && j != p {
                assert(t[i] == rs[oi] && t[j] == rs[oj]);
            } else if i == p {
                assert(t[j] == rs[oj]);
                assert(!on_surface(c.surface_id)(rs[oj].1));
            } else {
                assert(t[i] == rs[oi]);
                assert(!on_surface(c.surface_id)(rs[oi].1));
            }
        }
    }
    lemma_first_index(t, on_surface(c.surface_id));
    assert(on_surface(c.surface_id)(t[p].1));
    let q = surface_pos(t, c.surface_id) as int;
    if q != p {
        assert(q < p);
        assert(t[q].1.surface_id == c.surface_id);
    }
    if command_pos(rs, c.plugin_id, c.command_id) == rs.len() {
        lemma_first_index(rs, for_command(c.plugin_id, c.command_id));
        assert forall|i: int| 0 <= i < t.len() && i != p implies !for_command(
            c.plugin_id,
            c.command_id,
        )(#[trigger] t[i].1) by {
            let oi = if i < p {
                i
            } else {
                i - 1
            };
            assert(t[i] == rs[oi]);
        }
        lemma_keep_single(t, for_command(c.plugin_id, c.command_id), p);
        assert(command_runtimes(t, c.plugin_id, c.command_id) =~= seq![c]);
    }
}

/// A singleton command gets a runtime only when it has none: after a
/// successful singleton registration the new runtime is its command's only
/// runtime.
pub proof fn law_singleton_registration_is_alone(
    before: RuntimeEntries,
    reg: PluginRuntimeRegistration,
    id: String,
    r: Result<PluginRuntimeContext, RuntimeRegistryError>,
    after: RuntimeEntries,
)
    requires
        runtimes_wf(before),
        register_outcome(before, reg, id, r, after),
        r is Ok,
        reg.policy == RuntimePolicy::Singleton,
    ensures
        command_runtimes(after, reg.plugin_id@, reg.command_id@) == seq![r->Ok_0@],
{
    let c = r->Ok_0@;
    assert(c.id == id@ && c.plugin_id == reg.plugin_id@ && c.command_id == reg.command_id@
        && c.surface_id == reg.surface_id@);
    law_registered_runtime_is_found(before, c);
}

/// Removing a runtime by the id it was just registered under hands back
/// that runtime and leaves the runtimes as they were before the
/// registration.
pub proof fn law_register_then_remove(
    before: RuntimeEntries,
    reg: PluginRuntimeRegistration,
    id: String,
    r: Result<PluginRuntimeContext, RuntimeRegistryError>,
    after: RuntimeEntries,
)
    requires
        runtimes_wf(before),
        register_outcome(before, reg, id, r, after),
        r is Ok,
    ensures
        has_key(after, id@),
        after[key_pos(after, id@)].1 == r->Ok_0@,
        after.remove(key_pos(after, id@)) == before,
{
    let c = r->Ok_0;
    crate::label_map::law_insert_then_remove(before, id@, c@);
    crate::label_map::law_inserted_lookup(before, id@, c@);
    crate::label_map::lemma_value_of_at(after, key_pos(after, id@));
}

/// After a runtime is removed it is found neither by its id nor by its
/// surface.
pub proof fn law_removed_runtime_is_gone(rs: RuntimeEntries, i: int)
    requires
        runtimes_wf(rs),
        0 <= i < rs.len(),
    ensures
        runtimes_wf(rs.remove(i)),
        runtime_spec(rs.remove(i), rs[i].1.id) is None,
        surface_pos(rs.remove(i), rs[i].1.surface_id) == rs.remove(i).len(),
{
    let t = rs.remove(i);
    let c = rs[i].1;
    assert(runtimes_wf(t)) by {
        assert(keys_sorted(t)) by {
            assert forall|a: int, b: int| 0 <= a < b < t.len() implies crate::text::seq_lt(
                #[trigger] t[a].0,
                #[trigger] t[b].0,
            ) by {
                let oa = if a < i {
                    a
                } else {
                    a + 1
                };
                let ob = if b < i {
                    b
                } else {
                    b + 1
                };
                assert(t[a] == rs[oa] && t[b] == rs[ob]);
            }
        }
        assert forall|j: int| 0 <= j < t.len() implies (#[trigger] t[j]).0 == t[j].1.id by {
            if j < i {
                assert(t[j] == rs[j]);
            } else {
                assert(t[j] == rs[j + 1]);
            }
        }
        assert forall|a: int, b: int| 0 <= a < t.len() && 0 <= b < t.len() && a != b implies (
        #[trigger] t[a]).1.surface_id != (#[trigger] t[b]).1.surface_id by {
            let oa = if a < i {
                a
            } else {
                a + 1
            };
            let ob = if b < i {
                b
            } else {
                b + 1
            };
            assert(t[a] == rs[oa] && t[b] == rs[ob]);
        }
    }
    if has_key(t, c.id) {
        let q = key_pos(t, c.id);
        let q0 = if q < i {
            q
        } else {
            q + 1
        };
        assert(t[q] == rs[q0]);
        assert(rs[q0].0 == c.id);
        lemma_sorted_unique(rs, i, q0);
    }
    lemma_first_index(t, on_surface(c.surface_id));
    if surface_pos(t, c.surface_id) < t.len() {
        let q = surface_pos(t, c.surface_id) as int;
        let q0 = if q < i {
            q
        } else {
            q + 1
        };
        assert(t[q] == rs[q0]);
        assert(rs[q0].1.surface_id == c.surface_id);
    }
}

/// Focus entering before readiness waits for it: once ready, the runtime is
/// active and entered, with nothing pending.
pub proof fn law_enter_before_ready(c: RuntimeContextView)
    requires
        c.lifecycle == PluginRuntimeLifecycle::Created,
    ensures
        focus_enter_transition(c).pending_enter,
        focus_enter_transition(c).entered == c.entered,
        focus_enter_transition(c).lifecycle == PluginRuntimeLifecycle::Created,
        ready_transition(focus_enter_transition(c)).lifecycle == PluginRuntimeLifecycle::Active,
        ready_transition(focus_enter_transition(c)).entered,
        !ready_transition(focus_enter_transition(c)).pending_enter,
{
}

/// Focus entering a ready runtime makes it active and entered at once.
pub proof fn law_enter_after_ready(c: RuntimeContextView)
    ensures
        focus_enter_transition(ready_transition(c)).lifecycle == PluginRuntimeLifecycle::Active,
        focus_enter_transition(ready_transition(c)).entered,
        !focus_enter_transition(ready_transition(c)).pending_enter,
{
}

/// Leaving always clears `entered` and `pending_enter`; a closed runtime
/// stays closed and any other becomes ready.
pub proof fn law_leave_clears(c: RuntimeContextView)
    ensures
        !leave_transition(c).entered,
        !leave_transition(c).pending_enter,
        c.lifecycle == PluginRuntimeLifecycle::Closed ==> leave_transition(c).lifecycle
            == PluginRuntimeLifecycle::Closed,
        c.lifecycle != PluginRuntimeLifecycle::Closed ==> leave_transition(c).lifecycle
            == PluginRuntimeLifecycle::Ready,
{
}

/// Readiness enters a runtime only when focus was waiting for it: without a
/// waiting entry the runtime just becomes ready, entered exactly as before
/// (so its view is not told focus entered); with one it becomes active and
/// entered, and nothing is left waiting. The runtime's other fields are
/// kept either way.
pub proof fn law_ready_enters_only_a_waiting_runtime(c: RuntimeContextView)
    ensures
        !c.pending_enter ==> {
            &&& ready_transition(c).lifecycle == PluginRuntimeLifecycle::Ready
            &&& ready_transition(c).entered == c.entered
            &&& !ready_transition(c).pending_enter
        },
        c.pending_enter ==> {
            &&& ready_transition(c).lifecycle == PluginRuntimeLifecycle::Active
            &&& ready_transition(c).entered
            &&& !ready_transition(c).pending_enter
        },
        !c.entered && !c.pending_enter ==> !ready_transition(c).entered,
        ready_transition(c).id == c.id,
        ready_transition(c).plugin_id == c.plugin_id,
        ready_transition(c).command_id == c.command_id,
        ready_transition(c).surface_id == c.surface_id,
        ready_transition(c).permissions == c.permissions,
{
}

/// A runtime counts as entered only while it is active with no entry
/// waiting.
pub open spec fn focus_consistent(c: RuntimeContextView) -> bool {
    c.entered ==> (c.lifecycle == PluginRuntimeLifecycle::Active && !c.pending_enter)
}

/// Focus entering and leaving keep a runtime's focus state consistent, and
/// so does readiness for a runtime not yet entered. (Readiness reported again by a runtime already entered makes
/// it ready while still entered.)
pub proof fn law_focus_states_stay_consistent(c: RuntimeContextView)
    requires
        focus_consistent(c),
    ensures
        focus_consistent(focus_enter_transition(c)),
        focus_consistent(leave_transition(c)),
        !c.entered ==> focus_consistent(ready_transition(c)),
        c.lifecycle == PluginRuntimeLifecycle::Created && !c.entered ==> focus_consistent(
            ready_transition(focus_enter_transition(c)),
        ),
{
}

} // verus!
