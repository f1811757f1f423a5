use vstd::prelude::*;
use vstd::string::StrSliceExecFns;

verus! {

/// What a global keyboard shortcut asks the shell to do.
#[derive(Clone, Copy, Debug, PartialEq, Eq, Structural)]
pub enum ShortcutAction {
    /// Ctrl/Cmd+K.
    OpenCommandPalette,
    /// Ctrl/Cmd+B.
    ToggleSidebar,
    /// Ctrl/Cmd+` (backtick).
    ToggleTerminal,
    /// Ctrl/Cmd+S: a simulated save, reported by a success toast.
    Save,
}

/// The action bound to a key event with the given modifiers and key text;
/// `None` when the event matches no shortcut. Either Ctrl or Meta serves as
/// the modifier, and the first match in declaration order wins.
pub open spec fn shortcut_for(ctrl: bool, meta: bool, key: Seq<char>) -> Option<ShortcutAction> {
    if !(ctrl || meta) {
        None
    } else if key == seq!['k'] {
        Some(ShortcutAction::OpenCommandPalette)
    } else if key == seq!['b'] {
        Some(ShortcutAction::ToggleSidebar)
    } else if key == seq!['`'] {
        Some(ShortcutAction::ToggleTerminal)
    } else if key == seq!['s'] {
        Some(ShortcutAction::Save)
    } else {
        None
    }
}

/// Maps a key event to its shortcut action, if any.
pub fn match_shortcut(ctrl: bool, meta: bool, key: &str) -> (r: Option<ShortcutAction>)
    ensures
        r == shortcut_for(ctrl, meta, key@),
{
    if !(ctrl || meta) || key.unicode_len() != 1 {
        return None;
    }
    let c = key.get_char(0);
    proof {
        if key@.len() == 1 {
            assert(key@ =~= seq![c]);
        }
    }
    if c == 'k' {
        Some(ShortcutAction::OpenCommandPalette)
    } else if c == 'b' {
        Some(ShortcutAction::ToggleSidebar)
    } else if c == '`' {
        Some(ShortcutAction::ToggleTerminal)
    } else if c == 's' {
        Some(ShortcutAction::Save)
    } else {
        None
    }
}

} // verus!
