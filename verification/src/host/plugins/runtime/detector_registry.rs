//! Bookkeeping of the context detectors that plugin runtimes register:
//! which plugin and runtime each belongs to, so that closing a runtime or
//! removing a plugin drops its detectors.
use vstd::prelude::*;

use crate::label_map::{dropped_keys, has_key, inserted, keep, removed, value_of, LabelMap};
use crate::text::{str_eq, views};

verus! {

/// A detector registered by a plugin runtime.
#[derive(Clone, Debug)]
pub struct RegisteredDetector {
    pub plugin_id: String,
    pub runtime_id: String,
    pub local_detector_id: String,
    pub feature_kind: String,
    pub detector_id: String,
    pub webview_label: String,
    pub registered_at: String,
}

impl View for RegisteredDetector {
    type V = RegisteredDetector;

    open spec fn view(&self) -> RegisteredDetector {
        *self
    }
}

pub open spec fn detector_not_of_runtime(runtime_id: Seq<char>) -> spec_fn(RegisteredDetector) -> bool {
    |info: RegisteredDetector| info.runtime_id@ != runtime_id
}

pub open spec fn detector_not_of_plugin(plugin_id: Seq<char>) -> spec_fn(RegisteredDetector) -> bool {
    |info: RegisteredDetector| info.plugin_id@ != plugin_id
}

/// The detectors registered by plugin runtimes, keyed by detector id.
pub struct DetectorRegistry {
    registered: LabelMap<RegisteredDetector>,
}

impl DetectorRegistry {
    /// The registered detectors in detector-id order, each under its id.
    pub closed spec fn detectors(&self) -> Seq<(Seq<char>, RegisteredDetector)> {
        self.registered.entries()
    }

    pub open spec fn wf(&self) -> bool {
        crate::label_map::keys_sorted(self.detectors())
    }

    pub fn new() -> (r: Self)
        ensures
            r.wf(),
            r.detectors() == Seq::<(Seq<char>, RegisteredDetector)>::empty(),
    {
        DetectorRegistry { registered: LabelMap::new() }
    }

    /// Records a detector under its id, replacing any earlier one with that
    /// id; returns the one replaced.
    pub fn register_webview_detector(&mut self, info: RegisteredDetector) -> (prev: Option<
        RegisteredDetector,
    >)
        requires
            old(self).wf(),
        ensures
            final(self).wf(),
            final(self).detectors() == inserted(old(self).detectors(), info.detector_id@, info),
            has_key(old(self).detectors(), info.detector_id@) ==> prev == Some(
                value_of(old(self).detectors(), info.detector_id@),
            ),
            !has_key(old(self).detectors(), info.detector_id@) ==> prev is None,
    {
        let key = info.detector_id.clone();
        self.registered.insert(key, info)
    }

    /// Forgets a detector; returns its registration.
    pub fn unregister(&mut self, detector_id: &str) -> (prev: Option<RegisteredDetector>)
        requires
            old(self).wf(),
        ensures
            final(self).wf(),
            final(self).detectors() == removed(old(self).detectors(), detector_id@),
            has_key(old(self).detectors(), detector_id@) ==> prev == Some(
                value_of(old(self).detectors(), detector_id@),
            ),
            !has_key(old(self).detectors(), detector_id@) ==> prev is None,
    {
        self.registered.remove(detector_id)
    }

    /// Forgets every detector of the runtime; returns their ids.
    pub fn unregister_runtime(&mut self, runtime_id: &str) -> (ids: Vec<String>)
        requires
            old(self).wf(),
        ensures
            final(self).wf(),
            final(self).detectors() == keep(
                old(self).detectors(),
                detector_not_of_runtime(runtime_id@),
            ),
            views(ids@) == dropped_keys(old(self).detectors(), detector_not_of_runtime(runtime_id@)),
    {
        let f = |info: &RegisteredDetector| -> (b: bool)
            ensures
                b == (info.runtime_id@ != runtime_id@),
            { !str_eq(info.runtime_id.as_str(), runtime_id) };
        self.registered.retain(f, Ghost(detector_not_of_runtime(runtime_id@)))
    }

    /// Forgets every detector of the plugin; returns their ids.
    pub fn unregister_plugin(&mut self, plugin_id: &str) -> (ids: Vec<String>)
        requires
            old(self).wf(),
        ensures
            final(self).wf(),
            final(self).detectors() == keep(old(self).detectors(), detector_not_of_plugin(plugin_id@)),
            views(ids@) == dropped_keys(old(self).detectors(), detector_not_of_plugin(plugin_id@)),
    {
        let f = |info: &RegisteredDetector| -> (b: bool)
            ensures
                b == (info.plugin_id@ != plugin_id@),
            { !str_eq(info.plugin_id.as_str(), plugin_id) };
        self.registered.retain(f, Ghost(detector_not_of_plugin(plugin_id@)))
    }
}

} // verus!
