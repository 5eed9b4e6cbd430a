//! The settings the application runs with, and the overlay colour they
//! describe.
use vstd::prelude::*;
use crate::text::chars_of;

verus! {

/// The overlay colour used when the configured one cannot be read: a dark
/// green.
pub const DEFAULT_RED: u8 = 27;

pub const DEFAULT_GREEN: u8 = 94;

pub const DEFAULT_BLUE: u8 = 32;

/// The default opacity, 0.3, as the bits of an `f32`.
pub const DEFAULT_OPACITY_BITS: u32 = 0x3E99_999A;

/// Application settings.
#[derive(Clone, Debug)]
pub struct Config {
    /// The hotkey that toggles the lock, e.g. `ctrl+b` or `ctrl+shift+l`.
    pub hotkey: String,
    /// The overlay's opacity, from 0.0 to 1.0, as the bit pattern of an
    /// `f32`; the library carries it and does not read it.
    pub opacity_bits: u32,
    /// Whether to show notifications.
    pub notifications_enabled: bool,
    /// The overlay colour in hex, e.g. `#2D5A27`.
    pub overlay_color: String,
}

impl Default for Config {
    /// `ctrl+b`, opacity 0.3, notifications on, and the colour `#1B5E20`.
    fn default() -> (r: Self)
        ensures
            r.hotkey@ == "ctrl+b"@,
            r.opacity_bits == DEFAULT_OPACITY_BITS,
            r.notifications_enabled,
            r.overlay_color@ == "#1B5E20"@,
    {
        Config {
            hotkey: String::from_str("ctrl+b"),
            opacity_bits: DEFAULT_OPACITY_BITS,
            notifications_enabled: true,
            overlay_color: String::from_str("#1B5E20"),
        }
    }
}

/// `s` without its leading `#` characters.
pub open spec fn strip_hashes(s: Seq<char>) -> Seq<char>
    decreases s.len(),
{
    if s.len() > 0 && s[0] == '#' {
        strip_hashes(s.drop_first())
    } else {
        s
    }
}

/// The value of a hexadecimal digit, in either case.
pub open spec fn hex_digit(c: char) -> Option<u8> {
    let u = c as u32;
    if 0x30 <= u <= 0x39 {
        Some((u - 0x30) as u8)
    } else if 0x61 <= u <= 0x66 {
        Some((u - 0x61 + 10) as u8)
    } else if 0x41 <= u <= 0x46 {
        Some((u - 0x41 + 10) as u8)
    } else {
        None
    }
}

/// A byte written as two characters in base 16, as `u8::from_str_radix`
/// reads them: two digits, or a `+` sign and one digit.
pub open spec fn hex_byte(a: char, b: char) -> Option<u8> {
    if a == '+' {
        hex_digit(b)
    } else {
        match (hex_digit(a), hex_digit(b)) {
            (Some(x), Some(y)) => Some((16 * x + y) as u8),
            _ => None,
        }
    }
}

/// The colour that the text describes: after any leading `#`, exactly six
/// characters that read as three bytes; otherwise the default dark green.
pub open spec fn overlay_color_of(s: Seq<char>) -> (u8, u8, u8) {
    let h = strip_hashes(s);
    if h.len() == 6 {
        match (hex_byte(h[0], h[1]), hex_byte(h[2], h[3]), hex_byte(h[4], h[5])) {
            (Some(r), Some(g), Some(b)) => (r, g, b),
            _ => (DEFAULT_RED, DEFAULT_GREEN, DEFAULT_BLUE),
        }
    } else {
        (DEFAULT_RED, DEFAULT_GREEN, DEFAULT_BLUE)
    }
}

fn hex_digit_of(c: char) -> (r: Option<u8>)
    ensures
        r == hex_digit(c),
{
    let u = c as u32;
    if 0x30 <= u && u <= 0x39 {
        Some((u - 0x30) as u8)
    } else if 0x61 <= u && u <= 0x66 {
        Some((u - 0x61 + 10) as u8)
    } else if 0x41 <= u && u <= 0x46 {
        Some((u - 0x41 + 10) as u8)
    } else {
        None
    }
}

fn hex_byte_of(a: char, b: char) -> (r: Option<u8>)
    ensures
        r == hex_byte(a, b),
{
    if a == '+' {
        return hex_digit_of(b);
    }
    match (hex_digit_of(a), hex_digit_of(b)) {
        (Some(x), Some(y)) => Some(16 * x + y),
        _ => None,
    }
}

impl Config {
    /// The overlay colour as red, green and blue; the default dark green
    /// when the text is not a six-digit hex colour.
    pub fn parse_overlay_color(&self) -> (r: (u8, u8, u8))
        ensures
            r == overlay_color_of(self.overlay_color@),
    {
        let v = chars_of(self.overlay_color.as_str());
        let n = v.len();
        let mut i: usize = 0;
        assert(v@.subrange(0, n as int) =~= v@);
        while i < n && v[i] == '#'
            invariant
                i <= n == v.len(),
                v@ == self.overlay_color@,
                strip_hashes(v@) == strip_hashes(v@.subrange(i as int, n as int)),
            decreases n - i,
        {
            assert(v@.subrange(i as int, n as int).drop_first() =~= v@.subrange(i + 1, n as int));
            i = i + 1;
        }
        let ghost h = v@.subrange(i as int, n as int);
        assert(strip_hashes(h) == h);
        if n - i != 6 {
            return (DEFAULT_RED, DEFAULT_GREEN, DEFAULT_BLUE);
        }
        assert(h[0] == v@[i as int] && h[1] == v@[i + 1] && h[2] == v@[i + 2]);
        assert(h[3] == v@[i + 3] && h[4] == v@[i + 4] && h[5] == v@[i + 5]);
        match (
            hex_byte_of(v[i], v[i + 1]),
            hex_byte_of(v[i + 2], v[i + 3]),
            hex_byte_of(v[i + 4], v[i + 5]),
        ) {
            (Some(r), Some(g), Some(b)) => (r, g, b),
            _ => (DEFAULT_RED, DEFAULT_GREEN, DEFAULT_BLUE),
        }
    }
}

/// A colour packed as a Win32 COLORREF: red in the low byte, then green,
/// then blue.
pub fn color_ref(r: u8, g: u8, b: u8) -> (c: u32)
    ensures
        c == r as u32 + 256 * (g as u32) + 65536 * (b as u32),
{
    let (r32, g32, b32) = (r as u32, g as u32, b as u32);
    assert(r32 <= 255 && g32 <= 255 && b32 <= 255 ==> (r32 | (g32 << 8u32) | (b32 << 16u32))
        == r32 + 256 * g32 + 65536 * b32) by (bit_vector);
    r32 | (g32 << 8) | (b32 << 16)
}

} // verus!
