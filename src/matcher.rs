//! Hotkey matching against the live state of the modifier keys.
use vstd::prelude::*;
use crate::keys::{MOD_ALT, MOD_CONTROL, MOD_SHIFT, MOD_WIN};

verus! {

/// Which modifiers are held at the moment of an event, as the operating
/// system's key-state query reports them.
#[derive(Clone, Copy, Debug)]
pub struct ModifierSnapshot {
    pub control: bool,
    pub shift: bool,
    pub alt: bool,
    pub win: bool,
}

/// Whether the snapshot holds the modifier `flag` down.
pub open spec fn holds(live: ModifierSnapshot, flag: u32) -> bool {
    if flag == MOD_CONTROL {
        live.control
    } else if flag == MOD_SHIFT {
        live.shift
    } else if flag == MOD_ALT {
        live.alt
    } else if flag == MOD_WIN {
        live.win
    } else {
        false
    }
}

pub open spec fn is_modifier_flag(flag: u32) -> bool {
    flag == MOD_CONTROL || flag == MOD_SHIFT || flag == MOD_ALT || flag == MOD_WIN
}

/// Exact match: each of the four modifiers is held if and only if the mask
/// `required` asks for it.
pub open spec fn modifiers_match(required: u32, live: ModifierSnapshot) -> bool {
    &&& (required & MOD_CONTROL != 0) == live.control
    &&& (required & MOD_SHIFT != 0) == live.shift
    &&& (required & MOD_ALT != 0) == live.alt
    &&& (required & MOD_WIN != 0) == live.win
}

/// Whether `vk`, pressed with the modifiers of `live`, is the chord of
/// `binding` (a modifier mask and a trigger key).
pub open spec fn is_hotkey(binding: (u32, u32), vk: u32, live: ModifierSnapshot) -> bool {
    vk == binding.1 && modifiers_match(binding.0, live)
}

/// Whether the held modifiers are exactly those of `required`.
pub fn check_modifiers(required: u32, live: &ModifierSnapshot) -> (r: bool)
    ensures
        r == modifiers_match(required, *live),
{
    let ctrl_required = (required & MOD_CONTROL) != 0;
    let shift_required = (required & MOD_SHIFT) != 0;
    let alt_required = (required & MOD_ALT) != 0;
    let win_required = (required & MOD_WIN) != 0;
    ctrl_required == live.control && shift_required == live.shift && alt_required == live.alt
        && win_required == live.win
}

/// Whether `vk` with the modifiers of `live` is the configured chord.
pub fn matches_hotkey(binding: (u32, u32), vk: u32, live: &ModifierSnapshot) -> (r: bool)
    ensures
        r == is_hotkey(binding, vk, *live),
{
    vk == binding.1 && check_modifiers(binding.0, live)
}

/// A chord never matches while a modifier that the binding does not ask for
/// is held, even when every modifier that it asks for is held too.
pub proof fn lemma_superset_never_matches(binding: (u32, u32), vk: u32, live: ModifierSnapshot, extra: u32)
    requires
        is_modifier_flag(extra),
        binding.0 & extra == 0,
        holds(live, extra),
    ensures
        !is_hotkey(binding, vk, live),
{
}

} // verus!
