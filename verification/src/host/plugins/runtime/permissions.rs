//! Permission checks for plugin runtimes, and the ACL grants a plugin
//! webview gets from its declared permissions.
use vstd::prelude::*;

use crate::host::plugins::runtime::capability::{capability_permission, capability_trusted_only};
use crate::host::plugins::runtime::method_registry::{method_info, MethodDescriptor};
use crate::host::plugins::runtime::model::{PermissionQueryState, PluginRuntimeContext};
use crate::host::{CORE_PREFIX, SDK_PREFIX};
use crate::text::{
    char_pos, chars_contain, chars_of, concat, find_char, is_prefix, lemma_char_pos, owned,
    slice_chars, starts_with, str_eq, string_from_chars, views,
};

verus! {

/// The permission is among the declared ones.
pub open spec fn declares(permissions: Seq<String>, permission: Seq<char>) -> bool {
    views(permissions).contains(permission)
}

/// Whether a runtime may call `method`: the method must be in the table; a
/// trusted-only capability needs a trusted plugin; and a capability with a
/// permission needs that permission declared.
pub open spec fn can_call_spec(context: PluginRuntimeContext, method: Seq<char>) -> bool {
    match method_info(method) {
        None => false,
        Some(info) => {
            if capability_trusted_only(info.capability) && !context.trusted {
                false
            } else {
                match capability_permission(info.capability) {
                    None => true,
                    Some(p) => declares(context.permissions@, p),
                }
            }
        },
    }
}

/// Whether the runtime's plugin declared the permission.
pub fn is_permission_granted(context: &PluginRuntimeContext, permission: &str) -> (r: bool)
    ensures
        r == declares(context.permissions@, permission@),
{
    let mut i: usize = 0;
    while i < context.permissions.len()
        invariant
            i <= context.permissions@.len(),
            forall|j: int| 0 <= j < i ==> context.permissions@[j]@ != permission@,
        decreases context.permissions.len() - i,
    {
        if str_eq(context.permissions[i].as_str(), permission) {
            assert(views(context.permissions@)[i as int] == permission@);
            return true;
        }
        i = i + 1;
    }
    assert(!views(context.permissions@).contains(permission@)) by {
        if views(context.permissions@).contains(permission@) {
            let j = choose|j: int|
                0 <= j < views(context.permissions@).len() && views(context.permissions@)[j]
                    == permission@;
            assert(context.permissions@[j]@ == permission@);
        }
    }
    false
}

/// Whether a runtime may call `method`.
pub fn can_call_method(context: &PluginRuntimeContext, method: &str) -> (r: bool)
    ensures
        r == can_call_spec(*context, method@),
{
    let descriptor = match MethodDescriptor::find_by_name(method) {
        Some(d) => d,
        None => return false,
    };
    let cap = descriptor.capability.descriptor();
    if cap.trusted_only && !context.trusted {
        return false;
    }
    match cap.permission {
        None => true,
        Some(perm) => is_permission_granted(context, perm),
    }
}

/// Granted when the permission is declared, denied otherwise.
pub fn query_permission(context: &PluginRuntimeContext, permission: &str) -> (r:
    PermissionQueryState)
    ensures
        r == (if declares(context.permissions@, permission@) {
            PermissionQueryState::Granted
        } else {
            PermissionQueryState::Denied
        }),
{
    if is_permission_granted(context, permission) {
        PermissionQueryState::Granted
    } else {
        PermissionQueryState::Denied
    }
}

/// Whether a top-level `plugin:{name}|{action}` invoke is allowed: other
/// commands pass; a plugin command without `|` is refused; otherwise
/// `{name}:allow-{action}` or `{name}:default` must be declared.
pub open spec fn toplevel_invoke_spec(permissions: Seq<String>, command: Seq<char>) -> bool {
    if !is_prefix("plugin:"@, command) {
        true
    } else {
        let rest = command.skip("plugin:"@.len() as int);
        let bar = char_pos(rest, '|');
        if bar >= rest.len() {
            false
        } else {
            let name = rest.take(bar as int);
            let action = rest.skip(bar + 1int);
            declares(permissions, name + ":allow-"@ + action) || declares(
                permissions,
                name + ":default"@,
            )
        }
    }
}

/// Whether a top-level plugin invoke from the runtime's webview is allowed.
pub fn check_toplevel_invoke(context: &PluginRuntimeContext, command: &str) -> (r: bool)
    ensures
        r == toplevel_invoke_spec(context.permissions@, command@),
{
    let rest = match crate::text::strip_prefix(command, "plugin:") {
        Some(r) => r,
        None => return true,
    };
    let rv = chars_of(rest.as_str());
    let bar = find_char(&rv, '|');
    if bar >= rv.len() {
        return false;
    }
    let name = string_from_chars(&slice_chars(&rv, 0, bar));
    let action = string_from_chars(&slice_chars(&rv, bar + 1, rv.len()));
    assert(rv@.subrange(0, bar as int) =~= rv@.take(bar as int));
    assert(rv@.subrange(bar + 1, rv@.len() as int) =~= rv@.skip(bar + 1));
    let mut exact = concat(name.as_str(), ":allow-");
    exact.append(action.as_str());
    if is_permission_granted(context, exact.as_str()) {
        return true;
    }
    let default = concat(name.as_str(), ":default");
    is_permission_granted(context, default.as_str())
}

/// The trust domain of a permission identifier.
#[derive(Clone, Copy, Debug, PartialEq, Eq, Structural)]
pub enum PermissionDomain {
    /// `litools-core:*`, for the host only.
    Host,
    /// `litools-sdk:*`, granted to plugins by policy.
    Sdk,
    /// Any other well-formed identifier, such as `clipboard-manager:default`.
    Official,
    /// Not of the form `plugin:name`.
    Unknown,
}

/// Exactly one `:`, with something on both sides, and no `|`.
pub open spec fn is_permission_identifier_spec(p: Seq<char>) -> bool {
    let colon = char_pos(p, ':');
    &&& !p.contains('|')
    &&& 0 < colon
    &&& colon + 1 < p.len()
    &&& !p.skip(colon + 1int).contains(':')
}

pub open spec fn domain_of(p: Seq<char>) -> PermissionDomain {
    if is_prefix(CORE_PREFIX@, p) {
        PermissionDomain::Host
    } else if is_prefix(SDK_PREFIX@, p) {
        PermissionDomain::Sdk
    } else if is_permission_identifier_spec(p) {
        PermissionDomain::Official
    } else {
        PermissionDomain::Unknown
    }
}

/// Whether `perm` is a well-formed permission identifier.
fn is_permission_identifier(perm: &str) -> (r: bool)
    ensures
        r == is_permission_identifier_spec(perm@),
{
    let v = chars_of(perm);
    if chars_contain(&v, '|') {
        return false;
    }
    let colon = find_char(&v, ':');
    proof {
        lemma_char_pos(v@, ':');
    }
    if colon == 0 || colon >= v.len() || colon + 1 >= v.len() {
        return false;
    }
    let rest = slice_chars(&v, colon + 1, v.len());
    assert(rest@ =~= v@.skip(colon + 1));
    !chars_contain(&rest, ':')
}

/// The trust domain of a permission identifier.
pub fn categorize_permission(perm: &str) -> (d: PermissionDomain)
    ensures
        d == domain_of(perm@),
{
    if starts_with(perm, CORE_PREFIX) {
        PermissionDomain::Host
    } else if starts_with(perm, SDK_PREFIX) {
        PermissionDomain::Sdk
    } else if is_permission_identifier(perm) {
        PermissionDomain::Official
    } else {
        PermissionDomain::Unknown
    }
}

/// Position of the first malformed permission (the length when none is).
pub open spec fn first_malformed(perms: Seq<String>) -> nat
    decreases perms.len(),
{
    if perms.len() == 0 {
        0
    } else if domain_of(perms[0]@) == PermissionDomain::Unknown {
        0
    } else {
        1 + first_malformed(perms.drop_first())
    }
}

pub proof fn lemma_first_malformed(perms: Seq<String>)
    ensures
        first_malformed(perms) <= perms.len(),
        forall|i: int|
            0 <= i < first_malformed(perms) ==> domain_of(#[trigger] perms[i]@)
                != PermissionDomain::Unknown,
        first_malformed(perms) < perms.len() ==> domain_of(perms[first_malformed(perms) as int]@)
            == PermissionDomain::Unknown,
    decreases perms.len(),
{
    if perms.len() > 0 && domain_of(perms[0]@) != PermissionDomain::Unknown {
        lemma_first_malformed(perms.drop_first());
        assert forall|i: int| 0 <= i < first_malformed(perms) implies domain_of(
            #[trigger] perms[i]@,
        ) != PermissionDomain::Unknown by {
            if i > 0 {
                assert(perms[i] == perms.drop_first()[i - 1]);
            }
        }
    }
}

/// Refuses a declaration list with a malformed permission, naming the
/// first one: `malformed permission: {perm}`.
pub fn validate_declared_permissions(perms: &[String]) -> (r: Result<(), String>)
    ensures
        first_malformed(perms@) == perms@.len() ==> r is Ok,
        first_malformed(perms@) < perms@.len() ==> (r matches Err(msg) && msg@
            == "malformed permission: "@ + perms@[first_malformed(perms@) as int]@),
{
    proof {
        lemma_first_malformed(perms@);
    }
    let mut i: usize = 0;
    while i < perms.len()
        invariant
            i <= first_malformed(perms@),
            first_malformed(perms@) <= perms@.len(),
            first_malformed(perms@) < perms@.len() ==> domain_of(
                perms@[first_malformed(perms@) as int]@,
            ) == PermissionDomain::Unknown,
            forall|j: int|
                0 <= j < first_malformed(perms@) ==> domain_of(#[trigger] perms@[j]@)
                    != PermissionDomain::Unknown,
        decreases perms.len() - i,
    {
        match categorize_permission(perms[i].as_str()) {
            PermissionDomain::Unknown => {
                return Err(concat("malformed permission: ", perms[i].as_str()));
            },
            _ => {},
        }
        i = i + 1;
    }
    Ok(())
}

/// The sensitive `litools-sdk` permissions that only trusted plugins get.
pub open spec fn is_internal_sdk_perm_spec(p: Seq<char>) -> bool {
    p == "litools-sdk:allow-diagnostics"@ || p == "litools-sdk:allow-plugins-list"@ || p
        == "litools-sdk:allow-settings-write"@
}

fn is_internal_sdk_perm(perm: &str) -> (r: bool)
    ensures
        r == is_internal_sdk_perm_spec(perm@),
{
    str_eq(perm, "litools-sdk:allow-diagnostics") || str_eq(perm, "litools-sdk:allow-plugins-list")
        || str_eq(perm, "litools-sdk:allow-settings-write")
}

/// Whether a declared permission is granted to the webview.
pub open spec fn grants(p: Seq<char>, trusted: bool) -> bool {
    match domain_of(p) {
        PermissionDomain::Host => trusted,
        PermissionDomain::Sdk => !is_internal_sdk_perm_spec(p) || trusted,
        PermissionDomain::Official => true,
        PermissionDomain::Unknown => false,
    }
}

/// The declared permissions that are granted, in order.
pub open spec fn granted_declared(perms: Seq<String>, trusted: bool) -> Seq<Seq<char>>
    decreases perms.len(),
{
    if perms.len() == 0 {
        Seq::empty()
    } else if grants(perms.last()@, trusted) {
        granted_declared(perms.drop_last(), trusted).push(perms.last()@)
    } else {
        granted_declared(perms.drop_last(), trusted)
    }
}

/// The id of a plugin webview's capability: `plugin-cap-{webview_label}`.
pub fn plugin_capability_id(webview_label: &str) -> (id: String)
    ensures
        id@ == "plugin-cap-"@ + webview_label@,
{
    concat("plugin-cap-", webview_label)
}

/// The permissions a plugin webview's capability grants, in the order they
/// are added: the baseline `core:default` and `litools-sdk:default`, then the
/// declared permissions that pass (`litools-core:*` only for trusted plugins;
/// the sensitive `litools-sdk` ones only for trusted plugins; other
/// well-formed ones always). A malformed declaration refuses the whole list.
pub fn plugin_capability_permissions(declared: &[String], trusted: bool) -> (r: Result<
    Vec<String>,
    String,
>)
    ensures
        first_malformed(declared@) < declared@.len() ==> (r matches Err(msg) && msg@
            == "malformed permission: "@ + declared@[first_malformed(declared@) as int]@),
        first_malformed(declared@) == declared@.len() ==> (r matches Ok(v) && views(v@) == seq![
            "core:default"@,
            "litools-sdk:default"@,
        ] + granted_declared(declared@, trusted)),
{
    validate_declared_permissions(declared)?;
    let mut out: Vec<String> = Vec::new();
    out.push(owned("core:default"));
    out.push(owned("litools-sdk:default"));
    let ghost base = seq!["core:default"@, "litools-sdk:default"@];
    assert(views(out@) =~= base);
    let mut i: usize = 0;
    while i < declared.len()
        invariant
            i <= declared@.len(),
            views(out@) == base + granted_declared(declared@.take(i as int), trusted),
        decreases declared.len() - i,
    {
        let perm = &declared[i];
        let ghost before = out@;
        let take = match categorize_permission(perm.as_str()) {
            PermissionDomain::Host => trusted,
            PermissionDomain::Sdk => !(is_internal_sdk_perm(perm.as_str()) && !trusted),
            PermissionDomain::Official => true,
            PermissionDomain::Unknown => false,
        };
        if take {
            out.push(perm.clone());
        }
        proof {
            assert(declared@.take(i + 1).drop_last() =~= declared@.take(i as int));
            assert(declared@.take(i + 1).last() == declared@[i as int]);
            if take {
                assert(views(out@) =~= views(before).push(declared@[i as int]@));
            }
        }
        i = i + 1;
    }
    assert(declared@.take(declared@.len() as int) =~= declared@);
    Ok(out)
}

} // verus!
