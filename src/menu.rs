//! The decisions of the tray menu: which command an item stands for, the
//! label of the lock item, and when the overlay must change.
use vstd::prelude::*;
use crate::text::{chars_of, range_is};

verus! {

/// A command chosen from the tray menu.
#[derive(Clone, Copy, PartialEq, Eq, Debug, Structural)]
pub enum MenuCommand {
    /// Flip the lock, as the hotkey does.
    ToggleLock,
    OpenSettings,
    Exit,
    /// An item this menu does not know.
    Ignore,
}

/// The command of each menu item id: `lock`, `settings` and `exit`.
pub open spec fn command_of(id: Seq<char>) -> MenuCommand {
    if id == seq!['l', 'o', 'c', 'k'] {
        MenuCommand::ToggleLock
    } else if id == seq!['s', 'e', 't', 't', 'i', 'n', 'g', 's'] {
        MenuCommand::OpenSettings
    } else if id == seq!['e', 'x', 'i', 't'] {
        MenuCommand::Exit
    } else {
        MenuCommand::Ignore
    }
}

/// The command that the menu item with this id stands for.
pub fn menu_command(id: &str) -> (r: MenuCommand)
    ensures
        r == command_of(id@),
{
    let v = chars_of(id);
    let n = v.len();
    assert(v@.subrange(0, n as int) =~= v@);
    if range_is(&v, 0, n, &['l', 'o', 'c', 'k']) {
        MenuCommand::ToggleLock
    } else if range_is(&v, 0, n, &['s', 'e', 't', 't', 'i', 'n', 'g', 's']) {
        MenuCommand::OpenSettings
    } else if range_is(&v, 0, n, &['e', 'x', 'i', 't']) {
        MenuCommand::Exit
    } else {
        MenuCommand::Ignore
    }
}

/// The label of the lock item: it offers the opposite of the current state.
pub fn lock_menu_label(locked: bool) -> (r: &'static str)
    ensures
        r@ == (if locked {
            "Unlock Keyboard"@
        } else {
            "Lock Keyboard"@
        }),
{
    if locked {
        "Unlock Keyboard"
    } else {
        "Lock Keyboard"
    }
}

/// The overlay's new visibility when the lock state seen by the interface
/// has changed since it was last shown; `None` when nothing changed.
pub fn overlay_update(shown_locked: bool, current_locked: bool) -> (r: Option<bool>)
    ensures
        r == (if shown_locked != current_locked {
            Some(current_locked)
        } else {
            None::<bool>
        }),
{
    if shown_locked != current_locked {
        Some(current_locked)
    } else {
        None
    }
}

} // verus!
