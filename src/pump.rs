//! The decisions of the hook thread's message pump: run while no quit is
//! requested, dispatch what arrives, wait one poll interval when idle.
use vstd::prelude::*;

verus! {

/// The message that asks a message loop to end.
pub const WM_QUIT: u32 = 0x0012;

/// What the pump does next.
#[derive(Clone, Copy, PartialEq, Eq, Debug, Structural)]
pub enum PumpAction {
    /// Leave the loop and uninstall the hook.
    Unhook,
    /// Translate and dispatch the message just taken.
    Dispatch,
    /// Nothing arrived: sleep one poll interval.
    Wait,
}

/// The next action, from whether quit has been requested and the message
/// taken from the queue, if any. A requested quit ends the loop before any
/// message is looked at.
pub open spec fn pump_step(quit_requested: bool, message: Option<u32>) -> PumpAction {
    if quit_requested {
        PumpAction::Unhook
    } else {
        match message {
            Some(m) => if m == WM_QUIT {
                PumpAction::Unhook
            } else {
                PumpAction::Dispatch
            },
            None => PumpAction::Wait,
        }
    }
}

/// Decides one turn of the pump.
pub fn pump_action(quit_requested: bool, message: Option<u32>) -> (r: PumpAction)
    ensures
        r == pump_step(quit_requested, message),
        quit_requested ==> r == PumpAction::Unhook,
{
    if quit_requested {
        return PumpAction::Unhook;
    }
    match message {
        Some(m) => if m == WM_QUIT {
            PumpAction::Unhook
        } else {
            PumpAction::Dispatch
        },
        None => PumpAction::Wait,
    }
}

} // verus!
