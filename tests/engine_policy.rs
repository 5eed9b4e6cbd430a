use pawgate::engine::{on_key_event, toggled, KeyDecision, Verdict};
use pawgate::keys::{
    is_modifier_pressed, is_modifier_vk, key_state_down, modifier_keys, MOD_ALT, MOD_CONTROL,
    MOD_SHIFT, MOD_WIN, VK_CONTROL, VK_LCONTROL, VK_LMENU, VK_LSHIFT, VK_LWIN, VK_MENU,
    VK_RCONTROL, VK_RMENU, VK_RSHIFT, VK_RWIN, VK_SHIFT,
};
use pawgate::matcher::{check_modifiers, matches_hotkey, ModifierSnapshot};

const B: u32 = 0x42;
const CTRL_B: (u32, u32) = (MOD_CONTROL, B);

fn snapshot(control: bool, shift: bool, alt: bool, win: bool) -> ModifierSnapshot {
    ModifierSnapshot { control, shift, alt, win }
}

fn none() -> ModifierSnapshot {
    snapshot(false, false, false, false)
}

fn ctrl() -> ModifierSnapshot {
    snapshot(true, false, false, false)
}

const SWALLOW: KeyDecision = KeyDecision { verdict: Verdict::Swallow, toggle: false };
const FORWARD: KeyDecision = KeyDecision { verdict: Verdict::Forward, toggle: false };
const TOGGLE: KeyDecision = KeyDecision { verdict: Verdict::Swallow, toggle: true };

const MODIFIER_KEYS: [u32; 11] = [
    VK_LCONTROL, VK_RCONTROL, VK_LSHIFT, VK_RSHIFT, VK_LMENU, VK_RMENU, VK_LWIN, VK_RWIN,
    VK_CONTROL, VK_SHIFT, VK_MENU,
];

#[test]
fn classifies_modifier_keys() {
    for vk in MODIFIER_KEYS {
        assert!(is_modifier_vk(vk), "{:#x}", vk);
    }
    let modifiers = (0u32..256).filter(|&vk| is_modifier_vk(vk)).count();
    assert_eq!(modifiers, 11);
    assert!(!is_modifier_vk(B));
    assert!(!is_modifier_vk(0x14)); // Caps Lock
}

#[test]
fn modifier_keys_are_never_swallowed() {
    for vk in MODIFIER_KEYS {
        for locked in [false, true] {
            for down in [false, true] {
                for live in [none(), ctrl(), snapshot(true, true, true, true)] {
                    assert_eq!(on_key_event(0, down, vk, locked, CTRL_B, &live), FORWARD);
                }
            }
        }
    }
}

#[test]
fn locked_swallows_other_keys() {
    assert_eq!(on_key_event(0, true, 0x41, true, CTRL_B, &none()), SWALLOW);
    assert_eq!(on_key_event(0, true, B, true, CTRL_B, &none()), SWALLOW);
    assert_eq!(on_key_event(0, false, B, true, CTRL_B, &ctrl()), SWALLOW);
    assert_eq!(on_key_event(0, true, 0x20, true, CTRL_B, &snapshot(true, true, false, false)), SWALLOW);
}

#[test]
fn unlocked_forwards_other_keys() {
    assert_eq!(on_key_event(0, true, 0x41, false, CTRL_B, &none()), FORWARD);
    assert_eq!(on_key_event(0, true, 0x41, false, CTRL_B, &ctrl()), FORWARD);
    assert_eq!(on_key_event(0, true, B, false, CTRL_B, &none()), FORWARD);
    assert_eq!(on_key_event(0, true, B, false, CTRL_B, &snapshot(true, false, true, false)), FORWARD);
    assert_eq!(on_key_event(0, false, B, false, CTRL_B, &ctrl()), FORWARD);
}

#[test]
fn foreign_events_are_forwarded() {
    assert_eq!(on_key_event(-1, true, B, true, CTRL_B, &ctrl()), FORWARD);
    assert_eq!(on_key_event(-1, true, 0x41, true, CTRL_B, &none()), FORWARD);
}

#[test]
fn chord_toggles_in_both_states() {
    assert_eq!(on_key_event(0, true, B, false, CTRL_B, &ctrl()), TOGGLE);
    assert_eq!(on_key_event(0, true, B, true, CTRL_B, &ctrl()), TOGGLE);
}

#[test]
fn double_chord_returns_to_start() {
    for start in [false, true] {
        let mut locked = start;
        for _ in 0..2 {
            let d = on_key_event(0, true, B, locked, CTRL_B, &ctrl());
            assert_eq!(d, TOGGLE);
            locked = toggled(locked);
        }
        assert_eq!(locked, start);
    }
}

#[test]
fn superset_chord_does_not_match() {
    let ctrl_shift = snapshot(true, true, false, false);
    assert!(!matches_hotkey(CTRL_B, B, &ctrl_shift));
    assert!(matches_hotkey(CTRL_B, B, &ctrl()));
    assert_eq!(on_key_event(0, true, B, false, CTRL_B, &ctrl_shift), FORWARD);
    assert_eq!(on_key_event(0, true, B, true, CTRL_B, &ctrl_shift), SWALLOW);
}

#[test]
fn modifiers_must_match_exactly() {
    let required = MOD_CONTROL | MOD_ALT;
    assert!(check_modifiers(required, &snapshot(true, false, true, false)));
    assert!(!check_modifiers(required, &snapshot(true, false, false, false)));
    assert!(!check_modifiers(required, &snapshot(true, false, true, true)));
    assert!(check_modifiers(0, &none()));
    assert!(!check_modifiers(MOD_WIN, &none()));
    assert!(check_modifiers(MOD_SHIFT | MOD_WIN, &snapshot(false, true, false, true)));
}

#[test]
fn control_b_lock_unlock_sequence() {
    let mut locked = false;
    // Control goes down: it passes.
    assert_eq!(on_key_event(0, true, VK_LCONTROL, locked, CTRL_B, &ctrl()), FORWARD);
    // B goes down while Control is held: the lock engages and B is swallowed.
    let d = on_key_event(0, true, B, locked, CTRL_B, &ctrl());
    assert_eq!(d, TOGGLE);
    locked = toggled(locked);
    assert!(locked);
    // B up, Control up.
    assert_eq!(on_key_event(0, false, B, locked, CTRL_B, &ctrl()), SWALLOW);
    assert_eq!(on_key_event(0, false, VK_LCONTROL, locked, CTRL_B, &none()), FORWARD);
    // B alone: swallowed, still locked.
    assert_eq!(on_key_event(0, true, B, locked, CTRL_B, &none()), SWALLOW);
    assert_eq!(on_key_event(0, false, B, locked, CTRL_B, &none()), SWALLOW);
    // Control+B again: unlocks, and the chord itself is swallowed.
    assert_eq!(on_key_event(0, true, VK_RCONTROL, locked, CTRL_B, &ctrl()), FORWARD);
    let d = on_key_event(0, true, B, locked, CTRL_B, &ctrl());
    assert_eq!(d, TOGGLE);
    locked = toggled(locked);
    assert!(!locked);
    // Unlocked again: plain typing passes.
    assert_eq!(on_key_event(0, true, 0x41, locked, CTRL_B, &none()), FORWARD);
}

#[test]
fn key_state_word_high_bit() {
    assert!(key_state_down(i16::MIN));
    assert!(key_state_down(-32767));
    assert!(!key_state_down(0));
    assert!(!key_state_down(1));
    assert!(!key_state_down(i16::MAX));
    assert!(is_modifier_pressed(0, -32768));
    assert!(is_modifier_pressed(-1, 0));
    assert!(!is_modifier_pressed(1, 0));
}

#[test]
fn modifier_key_pairs() {
    assert_eq!(modifier_keys(MOD_CONTROL), Some((VK_LCONTROL, VK_RCONTROL)));
    assert_eq!(modifier_keys(MOD_SHIFT), Some((VK_LSHIFT, VK_RSHIFT)));
    assert_eq!(modifier_keys(MOD_ALT), Some((VK_LMENU, VK_RMENU)));
    assert_eq!(modifier_keys(MOD_WIN), Some((VK_LWIN, VK_RWIN)));
    assert_eq!(modifier_keys(3), None);
}

#[test]
fn missed_modifier_release_does_not_stick() {
    // Control+B locks; Control's key-up is never delivered, but the live
    // key state says it is up, so B alone does not unlock.
    let mut locked = false;
    assert_eq!(on_key_event(0, true, VK_LCONTROL, locked, CTRL_B, &ctrl()), FORWARD);
    assert_eq!(on_key_event(0, true, B, locked, CTRL_B, &ctrl()), TOGGLE);
    locked = toggled(locked);
    assert_eq!(on_key_event(0, true, B, locked, CTRL_B, &none()), SWALLOW);
    assert!(locked);
}

#[test]
fn locked_passes_exactly_modifier_keys() {
    for vk in 0u32..256 {
        for down in [false, true] {
            let d = on_key_event(0, down, vk, true, CTRL_B, &none());
            assert_eq!(d.verdict == Verdict::Forward, is_modifier_vk(vk), "{:#x}", vk);
        }
    }
}
