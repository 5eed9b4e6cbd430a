//! Virtual-key codes and modifier flags of the Win32 keyboard model, and the
//! classification of keys into modifiers and trigger-eligible keys.
use vstd::prelude::*;

verus! {

/// Modifier flag: either Alt key.
pub const MOD_ALT: u32 = 0x0001;

/// Modifier flag: either Control key.
pub const MOD_CONTROL: u32 = 0x0002;

/// Modifier flag: either Shift key.
pub const MOD_SHIFT: u32 = 0x0004;

/// Modifier flag: either Windows (meta) key.
pub const MOD_WIN: u32 = 0x0008;

pub const VK_BACK: u32 = 0x08;

pub const VK_TAB: u32 = 0x09;

pub const VK_RETURN: u32 = 0x0D;

pub const VK_SHIFT: u32 = 0x10;

pub const VK_CONTROL: u32 = 0x11;

/// The unified Alt key.
pub const VK_MENU: u32 = 0x12;

pub const VK_PAUSE: u32 = 0x13;

pub const VK_ESCAPE: u32 = 0x1B;

pub const VK_SPACE: u32 = 0x20;

/// Page Up.
pub const VK_PRIOR: u32 = 0x21;

/// Page Down.
pub const VK_NEXT: u32 = 0x22;

pub const VK_END: u32 = 0x23;

pub const VK_HOME: u32 = 0x24;

pub const VK_LEFT: u32 = 0x25;

pub const VK_UP: u32 = 0x26;

pub const VK_RIGHT: u32 = 0x27;

pub const VK_DOWN: u32 = 0x28;

/// Print Screen.
pub const VK_SNAPSHOT: u32 = 0x2C;

pub const VK_INSERT: u32 = 0x2D;

pub const VK_DELETE: u32 = 0x2E;

pub const VK_LWIN: u32 = 0x5B;

pub const VK_RWIN: u32 = 0x5C;

pub const VK_F1: u32 = 0x70;

pub const VK_F24: u32 = 0x87;

pub const VK_NUMLOCK: u32 = 0x90;

pub const VK_SCROLL: u32 = 0x91;

pub const VK_LSHIFT: u32 = 0xA0;

pub const VK_RSHIFT: u32 = 0xA1;

pub const VK_LCONTROL: u32 = 0xA2;

pub const VK_RCONTROL: u32 = 0xA3;

/// Left Alt.
pub const VK_LMENU: u32 = 0xA4;

/// Right Alt.
pub const VK_RMENU: u32 = 0xA5;

/// The keys that act as modifiers: the left and right variants of Control,
/// Shift, Alt and Windows, and the unified Control, Shift and Alt codes.
pub open spec fn is_modifier_key(vk: u32) -> bool {
    ||| vk == VK_LCONTROL
    ||| vk == VK_RCONTROL
    ||| vk == VK_LSHIFT
    ||| vk == VK_RSHIFT
    ||| vk == VK_LMENU
    ||| vk == VK_RMENU
    ||| vk == VK_LWIN
    ||| vk == VK_RWIN
    ||| vk == VK_CONTROL
    ||| vk == VK_SHIFT
    ||| vk == VK_MENU
}

/// Whether `vk` is a modifier key.
pub fn is_modifier_vk(vk: u32) -> (r: bool)
    ensures
        r == is_modifier_key(vk),
{
    vk == VK_LCONTROL || vk == VK_RCONTROL || vk == VK_LSHIFT || vk == VK_RSHIFT || vk
        == VK_LMENU || vk == VK_RMENU || vk == VK_LWIN || vk == VK_RWIN || vk == VK_CONTROL
        || vk == VK_SHIFT || vk == VK_MENU
}

/// The left and right keys that hold a modifier flag down.
pub open spec fn modifier_key_pair(modifier: u32) -> Option<(u32, u32)> {
    if modifier == MOD_CONTROL {
        Some((VK_LCONTROL, VK_RCONTROL))
    } else if modifier == MOD_SHIFT {
        Some((VK_LSHIFT, VK_RSHIFT))
    } else if modifier == MOD_ALT {
        Some((VK_LMENU, VK_RMENU))
    } else if modifier == MOD_WIN {
        Some((VK_LWIN, VK_RWIN))
    } else {
        None
    }
}

/// The left and right keys to query for a modifier flag; `None` for a value
/// that is not one of the four flags.
pub fn modifier_keys(modifier: u32) -> (r: Option<(u32, u32)>)
    ensures
        r == modifier_key_pair(modifier),
{
    if modifier == MOD_CONTROL {
        Some((VK_LCONTROL, VK_RCONTROL))
    } else if modifier == MOD_SHIFT {
        Some((VK_LSHIFT, VK_RSHIFT))
    } else if modifier == MOD_ALT {
        Some((VK_LMENU, VK_RMENU))
    } else if modifier == MOD_WIN {
        Some((VK_LWIN, VK_RWIN))
    } else {
        None
    }
}

/// Whether an asynchronous key-state word reports the key as held: its most
/// significant bit is set, which makes the signed word negative.
pub fn key_state_down(state: i16) -> (r: bool)
    ensures
        r == (state < 0),
{
    let bits: u16 = state as u16;
    let r = (bits & 0x8000u16) != 0;
    assert(((state as u16) & 0x8000u16) != 0 <==> state < 0) by (bit_vector);
    r
}

/// Whether a modifier is held, from the key-state words of its left and
/// right keys.
pub fn is_modifier_pressed(left_state: i16, right_state: i16) -> (r: bool)
    ensures
        r == (left_state < 0 || right_state < 0),
{
    key_state_down(left_state) || key_state_down(right_state)
}

} // verus!
