//! Bookkeeping of the search providers that plugin runtimes register, so
//! that closing a runtime or removing a plugin drops its providers.
use vstd::prelude::*;

use crate::label_map::{dropped_keys, inserted, keep, removed, LabelMap};
use crate::text::{str_eq, views};

verus! {

/// A search provider registered by a plugin runtime.
#[derive(Clone, Debug)]
pub struct RegisteredSearchProvider {
    pub plugin_id: String,
    pub runtime_id: String,
    pub provider_id: String,
    pub webview_label: String,
    pub registered_at: String,
}

impl View for RegisteredSearchProvider {
    type V = RegisteredSearchProvider;

    open spec fn view(&self) -> RegisteredSearchProvider {
        *self
    }
}

pub open spec fn not_of_runtime(runtime_id: Seq<char>) -> spec_fn(RegisteredSearchProvider) -> bool {
    |info: RegisteredSearchProvider| info.runtime_id@ != runtime_id
}

pub open spec fn not_of_plugin(plugin_id: Seq<char>) -> spec_fn(RegisteredSearchProvider) -> bool {
    |info: RegisteredSearchProvider| info.plugin_id@ != plugin_id
}

/// The providers registered by plugin runtimes, keyed by provider id.
pub struct WebviewSearchBridge {
    registered: LabelMap<RegisteredSearchProvider>,
}

impl WebviewSearchBridge {
    /// The registered providers in provider-id order, each under its id.
    pub closed spec fn providers(&self) -> Seq<(Seq<char>, RegisteredSearchProvider)> {
        self.registered.entries()
    }

    pub open spec fn wf(&self) -> bool {
        crate::label_map::keys_sorted(self.providers())
    }

    pub fn new() -> (b: Self)
        ensures
            b.wf(),
            b.providers() == Seq::<(Seq<char>, RegisteredSearchProvider)>::empty(),
    {
        WebviewSearchBridge { registered: LabelMap::new() }
    }

    /// Records a provider under its id; returns the registration it replaces.
    pub fn register_provider(&mut self, info: RegisteredSearchProvider) -> (prev: Option<
        RegisteredSearchProvider,
    >)
        requires
            old(self).wf(),
        ensures
            final(self).wf(),
            final(self).providers() == inserted(old(self).providers(), info.provider_id@, info),
            crate::label_map::has_key(old(self).providers(), info.provider_id@) ==> prev is Some
                && prev->0 == crate::label_map::value_of(old(self).providers(), info.provider_id@),
            !crate::label_map::has_key(old(self).providers(), info.provider_id@) ==> prev is None,
    {
        let key = info.provider_id.clone();
        self.registered.insert(key, info)
    }

    /// Forgets a provider; returns its registration.
    pub fn unregister_provider(&mut self, provider_id: &str) -> (prev: Option<
        RegisteredSearchProvider,
    >)
        requires
            old(self).wf(),
        ensures
            final(self).wf(),
            final(self).providers() == removed(old(self).providers(), provider_id@),
            crate::label_map::has_key(old(self).providers(), provider_id@) ==> prev is Some
                && prev->0 == crate::label_map::value_of(old(self).providers(), provider_id@),
            !crate::label_map::has_key(old(self).providers(), provider_id@) ==> prev is None,
    {
        self.registered.remove(provider_id)
    }

    /// Forgets every provider registered by the runtime; returns their ids.
    pub fn unregister_runtime(&mut self, runtime_id: &str) -> (ids: Vec<String>)
        requires
            old(self).wf(),
        ensures
            final(self).wf(),
            final(self).providers() == keep(old(self).providers(), not_of_runtime(runtime_id@)),
            views(ids@) == dropped_keys(old(self).providers(), not_of_runtime(runtime_id@)),
    {
        let f = |info: &RegisteredSearchProvider| -> (b: bool)
            ensures
                b == (info.runtime_id@ != runtime_id@),
            { !str_eq(info.runtime_id.as_str(), runtime_id) };
        self.registered.retain(f, Ghost(not_of_runtime(runtime_id@)))
    }

    /// Forgets every provider of the plugin; returns their ids.
    pub fn unregister_plugin(&mut self, plugin_id: &str) -> (ids: Vec<String>)
        requires
            old(self).wf(),
        ensures
            final(self).wf(),
            final(self).providers() == keep(old(self).providers(), not_of_plugin(plugin_id@)),
            views(ids@) == dropped_keys(old(self).providers(), not_of_plugin(plugin_id@)),
    {
        let f = |info: &RegisteredSearchProvider| -> (b: bool)
            ensures
                b == (info.plugin_id@ != plugin_id@),
            { !str_eq(info.plugin_id.as_str(), plugin_id) };
        self.registered.retain(f, Ghost(not_of_plugin(plugin_id@)))
    }
}

} // verus!
