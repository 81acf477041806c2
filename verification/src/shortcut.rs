//! The global shortcut: the spellings of an accelerator the settings may
//! hold, and the key combination each stands for.
use crate::text::{owned, str_eq, trim, trimmed};
use vstd::prelude::*;

verus! {

/// The one spelling of an accelerator: the aliases of Meta+Space and of
/// Control+Space are merged, and an empty setting means the default.
pub open spec fn normalized_accelerator(a: Seq<char>) -> Seq<char> {
    let t = trimmed(a);
    if t == "Meta+Space"@ || t == "Cmd+Space"@ || t == "Command+Space"@ {
        "Meta+Space"@
    } else if t == "Control+Space"@ || t == "Ctrl+Space"@ {
        "Control+Space"@
    } else if t == "CommandOrControl+Space"@ || t.len() == 0 {
        "CommandOrControl+Space"@
    } else {
        t
    }
}

/// The accelerator in its one spelling (surrounding whitespace dropped).
pub fn normalize_accelerator(accelerator: &str) -> (r: String)
    ensures
        r@ == normalized_accelerator(accelerator@),
{
    let t = trim(accelerator);
    let s = t.as_str();
    if str_eq(s, "Meta+Space") || str_eq(s, "Cmd+Space") || str_eq(s, "Command+Space") {
        owned("Meta+Space")
    } else if str_eq(s, "Control+Space") || str_eq(s, "Ctrl+Space") {
        owned("Control+Space")
    } else if str_eq(s, "CommandOrControl+Space") || s.is_empty() {
        owned("CommandOrControl+Space")
    } else {
        t
    }
}

/// The modifier held with Space.
#[derive(Clone, Copy, Debug, PartialEq, Eq, Structural)]
pub enum ShortcutModifier {
    Control,
    Meta,
    /// Meta on macOS, Control elsewhere.
    CommandOrControl,
}

/// The modifier an accelerator in its one spelling stands for.
pub open spec fn shortcut_modifier(a: Seq<char>) -> ShortcutModifier {
    if a == "Control+Space"@ {
        ShortcutModifier::Control
    } else if a == "Meta+Space"@ {
        ShortcutModifier::Meta
    } else {
        ShortcutModifier::CommandOrControl
    }
}

/// The modifier a user means by a spelling, aliases included: Control or
/// Ctrl is Control, Meta, Cmd or Command is Meta, and anything else is the
/// default CommandOrControl.
pub open spec fn spelled_modifier(t: Seq<char>) -> ShortcutModifier {
    if t == "Control+Space"@ || t == "Ctrl+Space"@ {
        ShortcutModifier::Control
    } else if t == "Meta+Space"@ || t == "Cmd+Space"@ || t == "Command+Space"@ {
        ShortcutModifier::Meta
    } else {
        ShortcutModifier::CommandOrControl
    }
}

/// Normalizing keeps what the user meant: the shortcut registered for the
/// normalized accelerator holds the modifier its spelling names, whatever
/// the alias and the surrounding whitespace.
pub proof fn law_normalizing_keeps_the_modifier(a: Seq<char>)
    ensures
        shortcut_modifier(normalized_accelerator(a)) == spelled_modifier(trimmed(a)),
{
    reveal_strlit("Control+Space");
    reveal_strlit("Meta+Space");
    reveal_strlit("CommandOrControl+Space");
    reveal_strlit("Ctrl+Space");
    reveal_strlit("Cmd+Space");
    reveal_strlit("Command+Space");
    let t = trimmed(a);
    assert("Meta+Space"@ != "Control+Space"@) by {
        assert("Meta+Space"@[0] != "Control+Space"@[0]);
    }
    assert("CommandOrControl+Space"@ != "Control+Space"@) by {
        assert("CommandOrControl+Space"@.len() != "Control+Space"@.len());
    }
    assert("CommandOrControl+Space"@ != "Meta+Space"@) by {
        assert("CommandOrControl+Space"@.len() != "Meta+Space"@.len());
    }
    if t == "Ctrl+Space"@ {
        assert(t != "Meta+Space"@ && t != "Cmd+Space"@ && t != "Command+Space"@) by {
            assert(t.len() == 10);
            assert(t[0] == 'C' && t[1] == 't');
        }
    }
    if t == "Control+Space"@ {
        assert(t != "Meta+Space"@ && t != "Cmd+Space"@ && t != "Command+Space"@) by {
            assert(t[1] == 'o' && t[2] == 'n');
        }
    }
    if t.len() == 0 {
        assert(t != "Control+Space"@ && t != "Ctrl+Space"@ && t != "Meta+Space"@ && t != "Cmd+Space"@
            && t != "Command+Space"@);
    }
}

/// The modifier an accelerator stands for: Control+Space and Meta+Space
/// as written; any other accelerator falls back to CommandOrControl+Space.
pub fn parse_shortcut(accelerator: &str) -> (m: ShortcutModifier)
    ensures
        m == shortcut_modifier(accelerator@),
{
    if str_eq(accelerator, "Control+Space") {
        ShortcutModifier::Control
    } else if str_eq(accelerator, "Meta+Space") {
        ShortcutModifier::Meta
    } else {
        ShortcutModifier::CommandOrControl
    }
}

} // verus!
