//! Registry of surfaces, keyed and ordered by webview label.
use vstd::prelude::*;

use crate::clock::now_rfc3339;
use crate::host::surface::model::{SurfaceLifecycle, SurfaceMetadata};
use crate::label_map::{
    first_index, has_key, inserted, keys_sorted, key_pos, lemma_first_index, lemma_value_of_at,
    removed, value_of, LabelMap,
};
use crate::text::{append_chars, decimal, owned, pad6, str_eq, zero_pad};
use crate::view::{ViewDefinition, WindowHostKind};
use crate::windowing::labels::{
    surface_webview_label, surface_webview_label_spec, DETACHED_PANEL_WINDOW_PREFIX,
    MAIN_WINDOW_LABEL,
};

verus! {

/// Prefix of detached host ids.
pub const DETACHED_HOST_ID_PREFIX: &'static str = "panel";

/// Prefix of surface ids.
pub const SURFACE_ID_PREFIX: &'static str = "surface";

/// The id of the `n`th registered surface: `surface_000001` and so on.
pub open spec fn surface_id_spec(n: nat) -> Seq<char> {
    SURFACE_ID_PREFIX@ + "_"@ + zero_pad(decimal(n), 6)
}

/// The label of the `n`th detached host window.
pub open spec fn detached_host_label_spec(n: nat) -> Seq<char> {
    DETACHED_PANEL_WINDOW_PREFIX@ + DETACHED_HOST_ID_PREFIX@ + "_"@ + zero_pad(decimal(n), 6)
}

pub type SurfaceEntries = Seq<(Seq<char>, SurfaceMetadata)>;

/// Position of the first surface hosted by the main window.
pub open spec fn first_on_main(s: SurfaceEntries) -> nat {
    first_index(s, |m: SurfaceMetadata| m.host_window_label@ == MAIN_WINDOW_LABEL@)
}

/// Position of the first surface whose id or host window label is `target`.
pub open spec fn first_by_id_or_host(s: SurfaceEntries, target: Seq<char>) -> nat {
    first_index(s, by_id_or_host(target))
}

/// The surface's id or host window label is `target`.
pub open spec fn by_id_or_host(target: Seq<char>) -> spec_fn(SurfaceMetadata) -> bool {
    |m: SurfaceMetadata| m.id@ == target || m.host_window_label@ == target
}

/// The surface that `target` names: for the main window label, the first
/// surface hosted by the main window; otherwise the surface with that webview
/// label, and failing that the first whose id or host window label is `target`.
pub open spec fn metadata_spec(s: SurfaceEntries, target: Seq<char>) -> Option<SurfaceMetadata> {
    if target == MAIN_WINDOW_LABEL@ {
        if first_on_main(s) < s.len() {
            Some(s[first_on_main(s) as int].1)
        } else {
            None
        }
    } else if has_key(s, target) {
        Some(value_of(s, target))
    } else if first_by_id_or_host(s, target) < s.len() {
        Some(s[first_by_id_or_host(s, target) as int].1)
    } else {
        None
    }
}

/// Position of the surface that `remove(target)` takes out.
pub open spec fn removal_index(s: SurfaceEntries, target: Seq<char>) -> int {
    if has_key(s, target) {
        key_pos(s, target)
    } else {
        first_by_id_or_host(s, target) as int
    }
}

pub struct SurfaceRegistry {
    next_surface_index: u64,
    next_detached_host_index: u64,
    surfaces_by_webview_label: LabelMap<SurfaceMetadata>,
}

impl Default for SurfaceRegistry {
    fn default() -> (r: Self)
        ensures
            r.wf(),
            r.surfaces() == Seq::<(Seq<char>, SurfaceMetadata)>::empty(),
            r.surface_counter() == 1,
            r.host_counter() == 1,
    {
        SurfaceRegistry {
            next_surface_index: 1,
            next_detached_host_index: 1,
            surfaces_by_webview_label: LabelMap::new(),
        }
    }
}

impl SurfaceRegistry {
    /// The surfaces in webview-label order, each under its webview label.
    pub closed spec fn surfaces(&self) -> SurfaceEntries {
        self.surfaces_by_webview_label.entries()
    }

    /// Index of the next surface id.
    pub closed spec fn surface_counter(&self) -> nat {
        self.next_surface_index as nat
    }

    /// Index of the next detached host label.
    pub closed spec fn host_counter(&self) -> nat {
        self.next_detached_host_index as nat
    }

    /// Sorted by label, and every surface is stored under its own webview label.
    pub open spec fn wf(&self) -> bool {
        &&& keys_sorted(self.surfaces())
        &&& forall|i: int|
            0 <= i < self.surfaces().len() ==> (#[trigger] self.surfaces()[i]).0
                == self.surfaces()[i].1.webview_label@
    }

    proof fn lemma_wf_key(&self, i: int)
        requires
            self.wf(),
            0 <= i < self.surfaces().len(),
        ensures
            has_key(self.surfaces(), self.surfaces()[i].1.webview_label@),
            value_of(self.surfaces(), self.surfaces()[i].1.webview_label@)
                == self.surfaces()[i].1,
            key_pos(self.surfaces(), self.surfaces()[i].1.webview_label@) == i,
    {
        lemma_value_of_at(self.surfaces(), i);
        let k = self.surfaces()[i].0;
        let j = key_pos(self.surfaces(), k);
        crate::label_map::lemma_sorted_unique(self.surfaces(), i, j);
    }

    /// Registers a new surface for `view` hosted by `host_window_label`.
    pub fn register_surface(
        &mut self,
        view: ViewDefinition,
        host_window_label: String,
        host_kind: WindowHostKind,
    ) -> (m: SurfaceMetadata)
        requires
            old(self).wf(),
            old(self).surface_counter() < u64::MAX,
        ensures
            final(self).wf(),
            m.id@ == surface_id_spec(old(self).surface_counter()),
            m.webview_label@ == surface_webview_label_spec(m.id@),
            m.view_id == view.id,
            m.provider == view.provider,
            m.route == view.route,
            m.title == view.title,
            m.host_window_label == host_window_label,
            m.host_kind == host_kind,
            m.lifecycle == SurfaceLifecycle::Active,
            !m.focused,
            m.created_at == m.updated_at,
            final(self).surface_counter() == old(self).surface_counter() + 1,
            final(self).host_counter() == old(self).host_counter(),
            final(self).surfaces() == inserted(old(self).surfaces(), m.webview_label@, m),
    {
        let mut id = owned(SURFACE_ID_PREFIX);
        id.append("_");
        append_chars(&mut id, &pad6(self.next_surface_index));
        self.next_surface_index = self.next_surface_index + 1;
        let webview_label = surface_webview_label(id.as_str());
        let now = now_rfc3339();
        let metadata = SurfaceMetadata {
            id,
            webview_label: webview_label.clone(),
            view_id: view.id,
            provider: view.provider,
            route: view.route,
            title: view.title,
            host_window_label,
            host_kind,
            lifecycle: SurfaceLifecycle::Active,
            focused: false,
            created_at: now.clone(),
            updated_at: now,
        };
        let copy = metadata.duplicate();
        let ghost pre = self.surfaces();
        self.surfaces_by_webview_label.insert(webview_label, copy);
        proof {
            let post = self.surfaces();
            assert forall|i: int| 0 <= i < post.len() implies (#[trigger] post[i]).0
                == post[i].1.webview_label@ by {
                if has_key(pre, metadata.webview_label@) {
                    if i != key_pos(pre, metadata.webview_label@) {
                        assert(post[i] == pre[i]);
                    }
                } else {
                    let p = crate::label_map::lower_bound(pre, metadata.webview_label@) as int;
                    crate::label_map::lemma_lower_bound(pre, metadata.webview_label@);
                    if i < p {
                        assert(post[i] == pre[i]);
                    } else if i > p {
                        assert(post[i] == pre[i - 1]);
                    }
                }
            }
        }
        metadata
    }

    /// A fresh label for a detached host window.
    pub fn next_detached_host_label(&mut self) -> (label: String)
        requires
            old(self).host_counter() < u64::MAX,
        ensures
            label@ == detached_host_label_spec(old(self).host_counter()),
            final(self).host_counter() == old(self).host_counter() + 1,
            final(self).surface_counter() == old(self).surface_counter(),
            final(self).surfaces() == old(self).surfaces(),
    {
        let mut label = owned(DETACHED_PANEL_WINDOW_PREFIX);
        label.append(DETACHED_HOST_ID_PREFIX);
        label.append("_");
        append_chars(&mut label, &pad6(self.next_detached_host_index));
        self.next_detached_host_index = self.next_detached_host_index + 1;
        label
    }

    fn index_on_main(&self) -> (r: usize)
        requires
            self.wf(),
        ensures
            r == first_on_main(self.surfaces()),
    {
        let ghost s = self.surfaces();
        let ghost p = |m: SurfaceMetadata| m.host_window_label@ == MAIN_WINDOW_LABEL@;
        proof {
            lemma_first_index(s, p);
        }
        let mut i: usize = 0;
        while i < self.surfaces_by_webview_label.len()
            invariant
                s == self.surfaces(),
                p == (|m: SurfaceMetadata| m.host_window_label@ == MAIN_WINDOW_LABEL@),
                i <= first_index(s, p),
                first_index(s, p) <= s.len(),
                first_index(s, p) < s.len() ==> p(s[first_index(s, p) as int].1),
                forall|j: int| 0 <= j < first_index(s, p) ==> !p(#[trigger] s[j].1),
            decreases s.len() - i,
        {
            let m = self.surfaces_by_webview_label.value_at(i);
            if str_eq(m.host_window_label.as_str(), MAIN_WINDOW_LABEL) {
                return i;
            }
            i = i + 1;
        }
        i
    }

    fn index_by_id_or_host(&self, target: &str) -> (r: usize)
        requires
            self.wf(),
        ensures
            r == first_by_id_or_host(self.surfaces(), target@),
    {
        let ghost s = self.surfaces();
        let ghost p = by_id_or_host(target@);
        proof {
            lemma_first_index(s, p);
        }
        let mut i: usize = 0;
        while i < self.surfaces_by_webview_label.len()
            invariant
                s == self.surfaces(),
                p == by_id_or_host(target@),
                i <= first_index(s, p),
                first_index(s, p) <= s.len(),
                first_index(s, p) < s.len() ==> p(s[first_index(s, p) as int].1),
                forall|j: int| 0 <= j < first_index(s, p) ==> !p(#[trigger] s[j].1),
            decreases s.len() - i,
        {
            let m = self.surfaces_by_webview_label.value_at(i);
            if str_eq(m.id.as_str(), target) || str_eq(m.host_window_label.as_str(), target) {
                return i;
            }
            i = i + 1;
        }
        i
    }

    /// The surface that `target` names (see `metadata_spec`).
    pub fn metadata(&self, target: &str) -> (r: Option<SurfaceMetadata>)
        requires
            self.wf(),
        ensures
            r == metadata_spec(self.surfaces(), target@),
    {
        if str_eq(target, MAIN_WINDOW_LABEL) {
            let i = self.index_on_main();
            if i < self.surfaces_by_webview_label.len() {
                return Some(self.surfaces_by_webview_label.value_at(i).duplicate());
            }
            return None;
        }
        match self.surfaces_by_webview_label.get(target) {
            Some(m) => Some(m.duplicate()),
            None => {
                let i = self.index_by_id_or_host(target);
                if i < self.surfaces_by_webview_label.len() {
                    Some(self.surfaces_by_webview_label.value_at(i).duplicate())
                } else {
                    None
                }
            },
        }
    }

    /// The surface whose webview label is `label`.
    pub fn metadata_for_webview_label(&self, label: &str) -> (r: Option<SurfaceMetadata>)
        requires
            self.wf(),
        ensures
            has_key(self.surfaces(), label@) ==> r == Some(value_of(self.surfaces(), label@)),
            !has_key(self.surfaces(), label@) ==> r is None,
    {
        match self.surfaces_by_webview_label.get(label) {
            Some(m) => Some(m.duplicate()),
            None => None,
        }
    }

    /// All surfaces, in webview-label order.
    pub fn list(&self) -> (r: Vec<SurfaceMetadata>)
        ensures
            r@ == self.surfaces().map_values(|e: (Seq<char>, SurfaceMetadata)| e.1),
    {
        let mut r: Vec<SurfaceMetadata> = Vec::new();
        let mut i: usize = 0;
        while i < self.surfaces_by_webview_label.len()
            invariant
                i <= self.surfaces().len(),
                r@ == self.surfaces().take(i as int).map_values(
                    |e: (Seq<char>, SurfaceMetadata)| e.1,
                ),
            decreases self.surfaces().len() - i,
        {
            r.push(self.surfaces_by_webview_label.value_at(i).duplicate());
            assert(self.surfaces().take(i + 1).map_values(|e: (Seq<char>, SurfaceMetadata)| e.1)
                =~= self.surfaces().take(i as int).map_values(
                |e: (Seq<char>, SurfaceMetadata)| e.1,
            ).push(self.surfaces()[i as int].1));
            i = i + 1;
        }
        assert(self.surfaces().take(self.surfaces().len() as int) =~= self.surfaces());
        r
    }

    /// Stores `m` at position `i`, stamping a new update time; returns what was stored.
    fn replace_at(&mut self, i: usize, m: SurfaceMetadata) -> (r: SurfaceMetadata)
        requires
            old(self).wf(),
            i < old(self).surfaces().len(),
            m.webview_label@ == old(self).surfaces()[i as int].0,
        ensures
            final(self).wf(),
            r == (SurfaceMetadata { updated_at: r.updated_at, ..m }),
            final(self).surfaces() == old(self).surfaces().update(
                i as int,
                (old(self).surfaces()[i as int].0, r),
            ),
            final(self).surface_counter() == old(self).surface_counter(),
            final(self).host_counter() == old(self).host_counter(),
    {
        let mut m = m;
        m.updated_at = now_rfc3339();
        let ghost pre = self.surfaces();
        self.surfaces_by_webview_label.set_value_at(i, m.duplicate());
        proof {
            let post = self.surfaces();
            assert forall|j: int| 0 <= j < post.len() implies (#[trigger] post[j]).0
                == post[j].1.webview_label@ by {
                if j != i {
                    assert(post[j] == pre[j]);
                }
            }
        }
        m
    }

    /// Moves the surface shown by `webview_label` to another host window,
    /// marking it active and focused.
    pub fn move_to_host(
        &mut self,
        webview_label: &str,
        host_window_label: String,
        host_kind: WindowHostKind,
    ) -> (r: Option<SurfaceMetadata>)
        requires
            old(self).wf(),
        ensures
            final(self).wf(),
            final(self).surface_counter() == old(self).surface_counter(),
            final(self).host_counter() == old(self).host_counter(),
            !has_key(old(self).surfaces(), webview_label@) ==> r is None && final(self).surfaces()
                == old(self).surfaces(),
            has_key(old(self).surfaces(), webview_label@) ==> r is Some && r->0 == (SurfaceMetadata {
                host_window_label: host_window_label,
                host_kind: host_kind,
                lifecycle: SurfaceLifecycle::Active,
                focused: true,
                updated_at: r->0.updated_at,
                ..value_of(old(self).surfaces(), webview_label@)
            }) && final(self).surfaces() == old(self).surfaces().update(
                key_pos(old(self).surfaces(), webview_label@),
                (webview_label@, r->0),
            ),
    {
        match self.surfaces_by_webview_label.find(webview_label) {
            None => None,
            Some(i) => {
                proof {
                    self.lemma_wf_key(i as int);
                }
                let mut m = self.surfaces_by_webview_label.value_at(i).duplicate();
                m.host_window_label = host_window_label;
                m.host_kind = host_kind;
                m.lifecycle = SurfaceLifecycle::Active;
                m.focused = true;
                Some(self.replace_at(i, m))
            },
        }
    }

    /// Shows another view on the surface shown by `webview_label`.
    pub fn mark_route(&mut self, webview_label: &str, view: ViewDefinition) -> (r: Option<
        SurfaceMetadata,
    >)
        requires
            old(self).wf(),
        ensures
            final(self).wf(),
            final(self).surface_counter() == old(self).surface_counter(),
            final(self).host_counter() == old(self).host_counter(),
            !has_key(old(self).surfaces(), webview_label@) ==> r is None && final(self).surfaces()
                == old(self).surfaces(),
            has_key(old(self).surfaces(), webview_label@) ==> r is Some && r->0 == (SurfaceMetadata {
                view_id: view.id,
                provider: view.provider,
                route: view.route,
                title: view.title,
                updated_at: r->0.updated_at,
                ..value_of(old(self).surfaces(), webview_label@)
            }) && final(self).surfaces() == old(self).surfaces().update(
                key_pos(old(self).surfaces(), webview_label@),
                (webview_label@, r->0),
            ),
    {
        match self.surfaces_by_webview_label.find(webview_label) {
            None => None,
            Some(i) => {
                proof {
                    self.lemma_wf_key(i as int);
                }
                let mut m = self.surfaces_by_webview_label.value_at(i).duplicate();
                m.view_id = view.id;
                m.provider = view.provider;
                m.route = view.route;
                m.title = view.title;
                Some(self.replace_at(i, m))
            },
        }
    }

    /// Position of the surface that `target` names, when there is one.
    fn target_index(&self, target: &str) -> (r: Option<usize>)
        requires
            self.wf(),
        ensures
            metadata_spec(self.surfaces(), target@) is None ==> r is None,
            metadata_spec(self.surfaces(), target@) matches Some(m) ==> r matches Some(i) && i
                < self.surfaces().len() && self.surfaces()[i as int].1 == m && key_pos(
                self.surfaces(),
                m.webview_label@,
            ) == i && self.surfaces()[i as int].0 == m.webview_label@,
    {
        let found = if str_eq(target, MAIN_WINDOW_LABEL) {
            self.index_on_main()
        } else {
            match self.surfaces_by_webview_label.find(target) {
                Some(i) => i,
                None => self.index_by_id_or_host(target),
            }
        };
        if found < self.surfaces_by_webview_label.len() {
            proof {
                self.lemma_wf_key(found as int);
                if target@ != MAIN_WINDOW_LABEL@ && has_key(self.surfaces(), target@) {
                    crate::label_map::lemma_value_of_at(self.surfaces(), found as int);
                }
            }
            Some(found)
        } else {
            None
        }
    }

    /// Sets the lifecycle of the surface that `target` names.
    pub fn mark_lifecycle(&mut self, target: &str, lifecycle: SurfaceLifecycle) -> (r: Option<
        SurfaceMetadata,
    >)
        requires
            old(self).wf(),
        ensures
            final(self).wf(),
            final(self).surface_counter() == old(self).surface_counter(),
            final(self).host_counter() == old(self).host_counter(),
            metadata_spec(old(self).surfaces(), target@) is None ==> r is None && final(self).surfaces() == old(self).surfaces(),
            metadata_spec(old(self).surfaces(), target@) matches Some(m) ==> r is Some && r->0 == (
            SurfaceMetadata { lifecycle: lifecycle, updated_at: r->0.updated_at, ..m }) && final(self).surfaces() == old(self).surfaces().update(
                key_pos(old(self).surfaces(), m.webview_label@),
                (m.webview_label@, r->0),
            ),
    {
        match self.target_index(target) {
            None => None,
            Some(i) => {
                let mut m = self.surfaces_by_webview_label.value_at(i).duplicate();
                m.lifecycle = lifecycle;
                Some(self.replace_at(i, m))
            },
        }
    }

    /// Sets whether the surface that `target` names has focus.
    pub fn mark_focused(&mut self, target: &str, focused: bool) -> (r: Option<SurfaceMetadata>)
        requires
            old(self).wf(),
        ensures
            final(self).wf(),
            final(self).surface_counter() == old(self).surface_counter(),
            final(self).host_counter() == old(self).host_counter(),
            metadata_spec(old(self).surfaces(), target@) is None ==> r is None && final(self).surfaces() == old(self).surfaces(),
            metadata_spec(old(self).surfaces(), target@) matches Some(m) ==> r is Some && r->0 == (
            SurfaceMetadata { focused: focused, updated_at: r->0.updated_at, ..m }) && final(self).surfaces() == old(self).surfaces().update(
                key_pos(old(self).surfaces(), m.webview_label@),
                (m.webview_label@, r->0),
            ),
    {
        match self.target_index(target) {
            None => None,
            Some(i) => {
                let mut m = self.surfaces_by_webview_label.value_at(i).duplicate();
                m.focused = focused;
                Some(self.replace_at(i, m))
            },
        }
    }

    /// Removes the surface with webview label `target`, or failing that the
    /// first whose id or host window label is `target`.
    pub fn remove(&mut self, target: &str) -> (r: Option<SurfaceMetadata>)
        requires
            old(self).wf(),
        ensures
            final(self).wf(),
            final(self).surface_counter() == old(self).surface_counter(),
            final(self).host_counter() == old(self).host_counter(),
            removal_index(old(self).surfaces(), target@) < old(self).surfaces().len() ==> r
                == Some(old(self).surfaces()[removal_index(old(self).surfaces(), target@)].1)
                && final(self).surfaces() == old(self).surfaces().remove(
                removal_index(old(self).surfaces(), target@),
            ),
            removal_index(old(self).surfaces(), target@) >= old(self).surfaces().len() ==> r
                is None && final(self).surfaces() == old(self).surfaces(),
    {
        let ghost pre = self.surfaces();
        let i = match self.surfaces_by_webview_label.find(target) {
            Some(i) => {
                proof {
                    crate::label_map::lemma_sorted_unique(pre, i as int, key_pos(pre, target@));
                }
                i
            },
            None => self.index_by_id_or_host(target),
        };
        if i < self.surfaces_by_webview_label.len() {
            let (_, m) = self.surfaces_by_webview_label.remove_at(i);
            proof {
                let post = self.surfaces();
                assert forall|j: int| 0 <= j < post.len() implies (#[trigger] post[j]).0
                    == post[j].1.webview_label@ by {
                    if j < i {
                        assert(post[j] == pre[j]);
                    } else {
                        assert(post[j] == pre[j + 1]);
                    }
                }
            }
            Some(m)
        } else {
            None
        }
    }
}

/// Surfaces registered at different counter values get different ids, and so
/// different webview labels: each registration names a fresh surface.
pub proof fn law_surface_ids_are_fresh(n: nat, m: nat)
    requires
        n != m,
    ensures
        surface_id_spec(n) != surface_id_spec(m),
        surface_webview_label_spec(surface_id_spec(n)) != surface_webview_label_spec(
            surface_id_spec(m),
        ),
{
    let prefix = SURFACE_ID_PREFIX@ + "_"@;
    let a = zero_pad(decimal(n), 6);
    let b = zero_pad(decimal(m), 6);
    crate::text::lemma_zero_pad_decimal_injective(n, m, 6);
    if surface_id_spec(n) == surface_id_spec(m) {
        assert((prefix + a).subrange(prefix.len() as int, (prefix + a).len() as int) =~= a);
        assert((prefix + b).subrange(prefix.len() as int, (prefix + b).len() as int) =~= b);
    }
}

/// A surface just registered is what its webview label names (the main
/// window's label, which names the first surface of the main window, aside).
pub proof fn law_registered_surface_is_found(s: SurfaceEntries, m: SurfaceMetadata)
    requires
        keys_sorted(s),
        m.webview_label@ != MAIN_WINDOW_LABEL@,
    ensures
        metadata_spec(inserted(s, m.webview_label@, m), m.webview_label@) == Some(m),
{
    crate::label_map::law_inserted_lookup(s, m.webview_label@, m);
}

/// Removing a surface by the webview label it was just registered under
/// (a label not in use before) takes out that surface and leaves the
/// surfaces as they were before the registration.
pub proof fn law_register_then_remove_surface(s: SurfaceEntries, m: SurfaceMetadata)
    requires
        keys_sorted(s),
        !has_key(s, m.webview_label@),
    ensures
        ({
            let t = inserted(s, m.webview_label@, m);
            &&& removal_index(t, m.webview_label@) < t.len()
            &&& t[removal_index(t, m.webview_label@)].1 == m
            &&& t.remove(removal_index(t, m.webview_label@)) == s
        }),
{
    let k = m.webview_label@;
    crate::label_map::law_insert_then_remove(s, k, m);
    crate::label_map::law_inserted_lookup(s, k, m);
    let t = inserted(s, k, m);
    crate::label_map::lemma_value_of_at(t, key_pos(t, k));
}

/// Detached host windows made at different counter values get different
/// labels.
pub proof fn law_detached_host_labels_are_fresh(n: nat, m: nat)
    requires
        n != m,
    ensures
        detached_host_label_spec(n) != detached_host_label_spec(m),
{
    let prefix = DETACHED_PANEL_WINDOW_PREFIX@ + DETACHED_HOST_ID_PREFIX@ + "_"@;
    let a = zero_pad(decimal(n), 6);
    let b = zero_pad(decimal(m), 6);
    crate::text::lemma_zero_pad_decimal_injective(n, m, 6);
    if detached_host_label_spec(n) == detached_host_label_spec(m) {
        assert(detached_host_label_spec(n) =~= prefix + a);
        assert(detached_host_label_spec(m) =~= prefix + b);
        assert((prefix + a).subrange(prefix.len() as int, (prefix + a).len() as int) =~= a);
        assert((prefix + b).subrange(prefix.len() as int, (prefix + b).len() as int) =~= b);
    }
}

/// A removed surface is no longer found by its webview label, when no
/// other surface has that label as its id or host window label.
pub proof fn law_removed_surface_is_gone(s: SurfaceEntries, label: Seq<char>)
    requires
        keys_sorted(s),
        has_key(s, label),
        label != MAIN_WINDOW_LABEL@,
        forall|i: int|
            0 <= i < s.len() && i != key_pos(s, label) ==> (#[trigger] s[i]).1.id@ != label
                && s[i].1.host_window_label@ != label,
    ensures
        metadata_spec(s.remove(removal_index(s, label)), label) is None,
{
    let p = key_pos(s, label);
    let t = s.remove(p);
    crate::label_map::law_removed_lookup(s, label);
    assert(removed(s, label) == t);
    assert(removal_index(s, label) == p);
    assert(!has_key(t, label));
    let pr = by_id_or_host(label);
    lemma_first_index(t, pr);
    let q = first_by_id_or_host(t, label) as int;
    if q < t.len() {
        assert(pr(t[q].1));
        if q < p {
            assert(t[q] == s[q]);
        } else {
            assert(t[q] == s[q + 1]);
        }
    }
}

} // verus!
