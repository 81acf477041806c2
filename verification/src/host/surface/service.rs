//! The checks and registry changes behind surface operations: detaching a
//! surface into its own window, changing its route, hiding, focusing and
//! destroying it, and finding the launcher surface of the main window. The
//! windows and webviews themselves are handled by the host.
use crate::host::surface::model::{SurfaceLifecycle, SurfaceMetadata};
use crate::host::surface::registry::{metadata_spec, SurfaceEntries, SurfaceRegistry};
use crate::label_map::{has_key, key_pos, value_of};
use crate::text::{concat, owned, str_eq};
use crate::view::{ViewDefinition, WindowHostKind};
use crate::windowing::labels::MAIN_WINDOW_LABEL;
use vstd::prelude::*;

verus! {

/// The surface whose webview has the label.
pub open spec fn label_surface(ss: SurfaceEntries, label: Seq<char>) -> Option<SurfaceMetadata> {
    if has_key(ss, label) {
        Some(value_of(ss, label))
    } else {
        None
    }
}

/// Whether the surface of the webview may be moved into a window of its
/// own: it must be known, not destroyed, and hosted by the main window.
pub open spec fn detach_check_spec(ss: SurfaceEntries, label: Seq<char>) -> Result<
    SurfaceMetadata,
    Seq<char>,
> {
    match label_surface(ss, label) {
        None => Err("surface metadata not found: "@ + label),
        Some(m) => if m.lifecycle == SurfaceLifecycle::Destroyed {
            Err("surface has been destroyed: "@ + label)
        } else if m.host_kind == WindowHostKind::Detached || m.host_window_label@
            != MAIN_WINDOW_LABEL@ {
            Err("surface is already detached: "@ + label)
        } else {
            Ok(m)
        },
    }
}

/// Checks that the surface of the webview may be detached.
pub fn check_detachable_surface(surfaces: &SurfaceRegistry, webview_label: &str) -> (r: Result<
    SurfaceMetadata,
    String,
>)
    requires
        surfaces.wf(),
    ensures
        match detach_check_spec(surfaces.surfaces(), webview_label@) {
            Ok(m) => r == Ok::<SurfaceMetadata, String>(m),
            Err(e) => r is Err && r->Err_0@ == e,
        },
{
    let m = match surfaces.metadata_for_webview_label(webview_label) {
        Some(m) => m,
        None => {
            return Err(concat("surface metadata not found: ", webview_label));
        },
    };
    if m.lifecycle == SurfaceLifecycle::Destroyed {
        return Err(concat("surface has been destroyed: ", webview_label));
    }
    if m.host_kind == WindowHostKind::Detached || !str_eq(
        m.host_window_label.as_str(),
        MAIN_WINDOW_LABEL,
    ) {
        return Err(concat("surface is already detached: ", webview_label));
    }
    Ok(m)
}

/// Records that the surface of the webview now lives in the detached
/// window and shows `view`: hosted there, active, focused, with the view's
/// id, provider, route and title.
pub fn record_detached_surface(
    surfaces: &mut SurfaceRegistry,
    webview_label: &str,
    detached_window_label: String,
    view: ViewDefinition,
) -> (r: Result<SurfaceMetadata, String>)
    requires
        old(surfaces).wf(),
    ensures
        final(surfaces).wf(),
        final(surfaces).surface_counter() == old(surfaces).surface_counter(),
        final(surfaces).host_counter() == old(surfaces).host_counter(),
        !has_key(old(surfaces).surfaces(), webview_label@) ==> r is Err && r->Err_0@
            == "surface metadata not found after reparent: "@ + webview_label@
            && final(surfaces).surfaces() == old(surfaces).surfaces(),
        has_key(old(surfaces).surfaces(), webview_label@) ==> r is Ok && r->Ok_0 == (
        SurfaceMetadata {
            host_window_label: detached_window_label,
            host_kind: WindowHostKind::Detached,
            lifecycle: SurfaceLifecycle::Active,
            focused: true,
            view_id: view.id,
            provider: view.provider,
            route: view.route,
            title: view.title,
            updated_at: r->Ok_0.updated_at,
            ..value_of(old(surfaces).surfaces(), webview_label@)
        }) && final(surfaces).surfaces() == old(surfaces).surfaces().update(
            key_pos(old(surfaces).surfaces(), webview_label@),
            (webview_label@, r->Ok_0),
        ),
{
    let moved = match surfaces.move_to_host(
        webview_label,
        detached_window_label,
        WindowHostKind::Detached,
    ) {
        Some(m) => m,
        None => {
            return Err(concat("surface metadata not found after reparent: ", webview_label));
        },
    };
    let ghost mid = surfaces.surfaces();
    proof {
        let p = key_pos(old(surfaces).surfaces(), webview_label@);
        assert(mid[p].0 == webview_label@);
        assert(has_key(mid, webview_label@));
        crate::label_map::lemma_sorted_unique(mid, p, key_pos(mid, webview_label@));
        crate::label_map::lemma_value_of_at(mid, p);
    }
    match surfaces.mark_route(webview_label, view) {
        Some(m) => {
            assert(surfaces.surfaces() =~= old(surfaces).surfaces().update(
                key_pos(old(surfaces).surfaces(), webview_label@),
                (webview_label@, m),
            ));
            Ok(m)
        },
        None => Ok(moved),
    }
}

/// Shows `view` in the surface of the webview. Nothing changes when the
/// surface already shows the view's route; the flag says whether it changed.
pub fn apply_surface_route(
    surfaces: &mut SurfaceRegistry,
    webview_label: &str,
    view: ViewDefinition,
) -> (r: Result<(SurfaceMetadata, bool), String>)
    requires
        old(surfaces).wf(),
    ensures
        final(surfaces).wf(),
        !has_key(old(surfaces).surfaces(), webview_label@) ==> r is Err && r->Err_0@
            == "surface metadata not found: "@ + webview_label@ && final(surfaces).surfaces()
            == old(surfaces).surfaces(),
        has_key(old(surfaces).surfaces(), webview_label@) && value_of(
            old(surfaces).surfaces(),
            webview_label@,
        ).route@ == view.route@ ==> r == Ok::<(SurfaceMetadata, bool), String>(
            (value_of(old(surfaces).surfaces(), webview_label@), false),
        ) && final(surfaces).surfaces() == old(surfaces).surfaces(),
        has_key(old(surfaces).surfaces(), webview_label@) && value_of(
            old(surfaces).surfaces(),
            webview_label@,
        ).route@ != view.route@ ==> r is Ok && r->Ok_0.1 && r->Ok_0.0 == (SurfaceMetadata {
            view_id: view.id,
            provider: view.provider,
            route: view.route,
            title: view.title,
            updated_at: r->Ok_0.0.updated_at,
            ..value_of(old(surfaces).surfaces(), webview_label@)
        }) && final(surfaces).surfaces() == old(surfaces).surfaces().update(
            key_pos(old(surfaces).surfaces(), webview_label@),
            (webview_label@, r->Ok_0.0),
        ),
{
    let current = match surfaces.metadata_for_webview_label(webview_label) {
        Some(m) => m,
        None => {
            return Err(concat("surface metadata not found: ", webview_label));
        },
    };
    if str_eq(current.route.as_str(), view.route.as_str()) {
        return Ok((current, false));
    }
    match surfaces.mark_route(webview_label, view) {
        Some(m) => Ok((m, true)),
        None => Err(concat("surface metadata not found: ", webview_label)),
    }
}

/// The surface that `target` names, for hiding or destroying it.
pub fn target_surface(surfaces: &SurfaceRegistry, target: &str) -> (r: Result<
    SurfaceMetadata,
    String,
>)
    requires
        surfaces.wf(),
    ensures
        match metadata_spec(surfaces.surfaces(), target@) {
            Some(m) => r == Ok::<SurfaceMetadata, String>(m),
            None => r is Err && r->Err_0@ == "surface metadata not found: "@ + target@,
        },
{
    match surfaces.metadata(target) {
        Some(m) => Ok(m),
        None => Err(concat("surface metadata not found: ", target)),
    }
}

/// The surface that `target` names, when it may be destroyed: surfaces of
/// the main window may not.
pub fn check_destroyable_surface(surfaces: &SurfaceRegistry, target: &str) -> (r: Result<
    SurfaceMetadata,
    String,
>)
    requires
        surfaces.wf(),
    ensures
        match metadata_spec(surfaces.surfaces(), target@) {
            None => r is Err && r->Err_0@ == "surface metadata not found: "@ + target@,
            Some(m) => if m.host_window_label@ == MAIN_WINDOW_LABEL@ {
                r is Err && r->Err_0@
                    == "main surface cannot be destroyed through managed surface API"@
            } else {
                r == Ok::<SurfaceMetadata, String>(m)
            },
        },
{
    let m = target_surface(surfaces, target)?;
    if str_eq(m.host_window_label.as_str(), MAIN_WINDOW_LABEL) {
        return Err(owned("main surface cannot be destroyed through managed surface API"));
    }
    Ok(m)
}

/// The launcher surface of the main window: hosted by it, docked, not
/// destroyed.
pub open spec fn is_main_launcher(m: SurfaceMetadata) -> bool {
    &&& m.host_window_label@ == MAIN_WINDOW_LABEL@
    &&& m.host_kind == WindowHostKind::Main
    &&& m.lifecycle != SurfaceLifecycle::Destroyed
}

/// Whether one of the webviews (of the main window) shows the main
/// launcher surface.
pub fn has_main_launcher_surface(surfaces: &SurfaceRegistry, webview_labels: &Vec<String>) -> (r:
    bool)
    requires
        surfaces.wf(),
    ensures
        r == exists|i: int|
            0 <= i < webview_labels@.len() && (label_surface(
                surfaces.surfaces(),
                #[trigger] webview_labels@[i]@,
            ) matches Some(m) && is_main_launcher(m)),
{
    let mut i: usize = 0;
    while i < webview_labels.len()
        invariant
            surfaces.wf(),
            i <= webview_labels@.len(),
            forall|j: int|
                0 <= j < i ==> !(label_surface(surfaces.surfaces(), #[trigger] webview_labels@[j]@) matches Some(m)
                    && is_main_launcher(m)),
        decreases webview_labels.len() - i,
    {
        match surfaces.metadata_for_webview_label(webview_labels[i].as_str()) {
            Some(m) => {
                if str_eq(m.host_window_label.as_str(), MAIN_WINDOW_LABEL) && m.host_kind
                    == WindowHostKind::Main && m.lifecycle != SurfaceLifecycle::Destroyed {
                    assert(label_surface(surfaces.surfaces(), webview_labels@[i as int]@) == Some(m));
                    return true;
                }
            },
            None => {},
        }
        i = i + 1;
    }
    false
}

/// The first of the webviews that has a surface.
pub open spec fn first_known(ss: SurfaceEntries, labels: Seq<String>) -> Option<SurfaceMetadata>
    decreases labels.len(),
{
    if labels.len() == 0 {
        None
    } else {
        match label_surface(ss, labels[0]@) {
            Some(m) => Some(m),
            None => first_known(ss, labels.drop_first()),
        }
    }
}

/// The route the main window shows: that of the first of its webviews with
/// a surface, else the launcher's `/`.
pub fn current_main_route(surfaces: &SurfaceRegistry, webview_labels: &Vec<String>) -> (r: String)
    requires
        surfaces.wf(),
    ensures
        r@ == match first_known(surfaces.surfaces(), webview_labels@) {
            Some(m) => m.route@,
            None => "/"@,
        },
{
    let mut i: usize = 0;
    assert(webview_labels@.skip(0) =~= webview_labels@);
    while i < webview_labels.len()
        invariant
            surfaces.wf(),
            i <= webview_labels@.len(),
            first_known(surfaces.surfaces(), webview_labels@) == first_known(
                surfaces.surfaces(),
                webview_labels@.skip(i as int),
            ),
        decreases webview_labels.len() - i,
    {
        assert(webview_labels@.skip(i as int)[0] == webview_labels@[i as int]);
        match surfaces.metadata_for_webview_label(webview_labels[i].as_str()) {
            Some(m) => {
                return m.route;
            },
            None => {},
        }
        assert(webview_labels@.skip(i as int).drop_first() =~= webview_labels@.skip(i + 1));
        i = i + 1;
    }
    owned("/")
}

/// The first of the webviews whose surface is docked in the main window.
pub open spec fn first_docked(ss: SurfaceEntries, labels: Seq<String>) -> Option<Seq<char>>
    decreases labels.len(),
{
    if labels.len() == 0 {
        None
    } else {
        match label_surface(ss, labels[0]@) {
            Some(m) => if m.host_kind == WindowHostKind::Main {
                Some(labels[0]@)
            } else {
                first_docked(ss, labels.drop_first())
            },
            None => first_docked(ss, labels.drop_first()),
        }
    }
}

/// The webview of the main window whose route a reset of the launcher
/// sets back to `/`.
pub fn launcher_reset_target(surfaces: &SurfaceRegistry, webview_labels: &Vec<String>) -> (r:
    Option<String>)
    requires
        surfaces.wf(),
    ensures
        match first_docked(surfaces.surfaces(), webview_labels@) {
            Some(l) => r is Some && r->0@ == l,
            None => r is None,
        },
{
    let mut i: usize = 0;
    assert(webview_labels@.skip(0) =~= webview_labels@);
    while i < webview_labels.len()
        invariant
            surfaces.wf(),
            i <= webview_labels@.len(),
            first_docked(surfaces.surfaces(), webview_labels@) == first_docked(
                surfaces.surfaces(),
                webview_labels@.skip(i as int),
            ),
        decreases webview_labels.len() - i,
    {
        assert(webview_labels@.skip(i as int)[0] == webview_labels@[i as int]);
        match surfaces.metadata_for_webview_label(webview_labels[i].as_str()) {
            Some(m) => {
                if m.host_kind == WindowHostKind::Main {
                    return Some(webview_labels[i].clone());
                }
            },
            None => {},
        }
        assert(webview_labels@.skip(i as int).drop_first() =~= webview_labels@.skip(i + 1));
        i = i + 1;
    }
    None
}

} // verus!
