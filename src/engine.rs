//! The interception policy: for every keyboard event, whether it is
//! swallowed or forwarded, and whether it toggles the lock.
use vstd::prelude::*;
use crate::keys::{is_modifier_key, is_modifier_vk};
use crate::matcher::{is_hotkey, matches_hotkey, ModifierSnapshot};

verus! {

/// What becomes of a keyboard event.
#[derive(Clone, Copy, PartialEq, Eq, Debug, Structural)]
pub enum Verdict {
    /// Passed on to the next consumer of input.
    Forward,
    /// Suppressed: no other application sees it.
    Swallow,
}

/// The engine's answer to one event.
#[derive(Clone, Copy, PartialEq, Eq, Debug, Structural)]
pub struct KeyDecision {
    pub verdict: Verdict,
    /// Whether the lock state flips.
    pub toggle: bool,
}

/// The policy. An event with a negative code does not belong to this layer
/// and is forwarded untouched. The key-down of a non-modifier key that
/// completes the chord toggles the lock and is swallowed. While locked,
/// every other event of a non-modifier key is swallowed. Everything else,
/// and every event of a modifier key, is forwarded.
pub open spec fn decide(
    code: i32,
    is_keydown: bool,
    vk: u32,
    locked: bool,
    binding: (u32, u32),
    live: ModifierSnapshot,
) -> KeyDecision {
    if code < 0 {
        KeyDecision { verdict: Verdict::Forward, toggle: false }
    } else if is_keydown && !is_modifier_key(vk) && is_hotkey(binding, vk, live) {
        KeyDecision { verdict: Verdict::Swallow, toggle: true }
    } else if locked && !is_modifier_key(vk) {
        KeyDecision { verdict: Verdict::Swallow, toggle: false }
    } else {
        KeyDecision { verdict: Verdict::Forward, toggle: false }
    }
}

/// The lock state after a decision.
pub open spec fn lock_after(locked: bool, d: KeyDecision) -> bool {
    if d.toggle {
        !locked
    } else {
        locked
    }
}

/// The lock state flipped; the one transition of the lock, shared by the
/// hotkey and by a manual toggle.
pub fn toggled(locked: bool) -> (r: bool)
    ensures
        r == !locked,
{
    !locked
}

/// Decides one keyboard event: `code` is the hook code, `is_keydown` tells
/// a key-down from a key-up, `vk` is the key, `locked` the current lock
/// state, `binding` the configured chord and `live` the modifiers held now.
pub fn on_key_event(
    code: i32,
    is_keydown: bool,
    vk: u32,
    locked: bool,
    binding: (u32, u32),
    live: &ModifierSnapshot,
) -> (r: KeyDecision)
    ensures
        r == decide(code, is_keydown, vk, locked, binding, *live),
{
    if code < 0 {
        return KeyDecision { verdict: Verdict::Forward, toggle: false };
    }
    let modifier = is_modifier_vk(vk);
    if is_keydown && !modifier && matches_hotkey(binding, vk, live) {
        KeyDecision { verdict: Verdict::Swallow, toggle: true }
    } else if locked && !modifier {
        KeyDecision { verdict: Verdict::Swallow, toggle: false }
    } else {
        KeyDecision { verdict: Verdict::Forward, toggle: false }
    }
}

/// Events of modifier keys are never swallowed and never toggle the lock,
/// whatever the lock state: they pass so that a chord can be composed.
pub proof fn lemma_modifier_keys_pass(
    code: i32,
    is_keydown: bool,
    vk: u32,
    locked: bool,
    binding: (u32, u32),
    live: ModifierSnapshot,
)
    requires
        is_modifier_key(vk),
    ensures
        decide(code, is_keydown, vk, locked, binding, live) == (KeyDecision {
            verdict: Verdict::Forward,
            toggle: false,
        }),
{
}

/// While locked, the events that pass are exactly those of modifier keys:
/// every event of any other key, down or up, is swallowed.
pub proof fn lemma_locked_passes_only_modifiers(
    code: i32,
    is_keydown: bool,
    vk: u32,
    binding: (u32, u32),
    live: ModifierSnapshot,
)
    requires
        code >= 0,
    ensures
        (decide(code, is_keydown, vk, true, binding, live).verdict == Verdict::Forward)
            <==> is_modifier_key(vk),
{
}

/// While locked, the key-down of a non-modifier key that is not the chord is
/// swallowed and leaves the lock engaged.
pub proof fn lemma_locked_blocks(
    code: i32,
    vk: u32,
    binding: (u32, u32),
    live: ModifierSnapshot,
)
    requires
        code >= 0,
        !is_modifier_key(vk),
        !is_hotkey(binding, vk, live),
    ensures
        decide(code, true, vk, true, binding, live) == (KeyDecision {
            verdict: Verdict::Swallow,
            toggle: false,
        }),
{
}

/// While unlocked, the key-down of a non-modifier key is forwarded whatever
/// modifiers are held, unless it completes the chord.
pub proof fn lemma_unlocked_forwards(
    code: i32,
    vk: u32,
    binding: (u32, u32),
    live: ModifierSnapshot,
)
    requires
        !is_modifier_key(vk),
        !is_hotkey(binding, vk, live),
    ensures
        decide(code, true, vk, false, binding, live) == (KeyDecision {
            verdict: Verdict::Forward,
            toggle: false,
        }),
{
}

/// The chord is swallowed and flips the lock, in either state.
pub proof fn lemma_chord_toggles(
    code: i32,
    vk: u32,
    locked: bool,
    binding: (u32, u32),
    live: ModifierSnapshot,
)
    requires
        code >= 0,
        !is_modifier_key(vk),
        is_hotkey(binding, vk, live),
    ensures
        decide(code, true, vk, locked, binding, live) == (KeyDecision {
            verdict: Verdict::Swallow,
            toggle: true,
        }),
        lock_after(locked, decide(code, true, vk, locked, binding, live)) == !locked,
{
}

/// The chord detected on two separate key-downs toggles twice and leaves
/// the lock where it started.
pub proof fn lemma_double_chord_restores(
    code1: i32,
    live1: ModifierSnapshot,
    code2: i32,
    live2: ModifierSnapshot,
    vk: u32,
    locked: bool,
    binding: (u32, u32),
)
    requires
        code1 >= 0,
        code2 >= 0,
        !is_modifier_key(vk),
        is_hotkey(binding, vk, live1),
        is_hotkey(binding, vk, live2),
    ensures
        ({
            let mid = lock_after(locked, decide(code1, true, vk, locked, binding, live1));
            lock_after(mid, decide(code2, true, vk, mid, binding, live2)) == locked
        }),
{
}

/// The lock changes only on the key-down of a non-modifier key that
/// completes the chord.
pub proof fn lemma_toggle_only_on_chord(
    code: i32,
    is_keydown: bool,
    vk: u32,
    locked: bool,
    binding: (u32, u32),
    live: ModifierSnapshot,
)
    ensures
        decide(code, is_keydown, vk, locked, binding, live).toggle <==> (code >= 0 && is_keydown
            && !is_modifier_key(vk) && is_hotkey(binding, vk, live)),
{
}

} // verus!
