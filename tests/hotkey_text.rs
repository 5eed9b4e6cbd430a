use pawgate::hotkey::{format_hotkey, hotkey_binding, parse_hotkey, parse_lowercased_hotkey};
use pawgate::keys::{MOD_ALT, MOD_CONTROL, MOD_SHIFT, MOD_WIN};

#[test]
fn parses_default_hotkey() {
    assert_eq!(parse_hotkey("ctrl+b"), Some((MOD_CONTROL, 0x42)));
}

#[test]
fn parsing_ignores_case() {
    assert_eq!(parse_hotkey("CTRL+Shift+L"), Some((MOD_CONTROL | MOD_SHIFT, 0x4C)));
    assert_eq!(parse_hotkey("Control+B"), Some((MOD_CONTROL, 0x42)));
}

#[test]
fn parsing_folds_unicode_case() {
    // KELVIN SIGN lower-cases to an ASCII `k`.
    assert_eq!(parse_hotkey("CTRL+\u{212A}"), Some((MOD_CONTROL, 0x4B)));
}

#[test]
fn lowercased_parser_does_not_fold_case() {
    assert_eq!(parse_lowercased_hotkey("CTRL+b"), Some((0, 0x42)));
    assert_eq!(parse_lowercased_hotkey("ctrl+B"), Some((MOD_CONTROL, 0x42)));
}

#[test]
fn malformed_text_yields_no_trigger() {
    assert_eq!(parse_hotkey("ctrl++"), None);
    assert_eq!(hotkey_binding("ctrl++"), (MOD_CONTROL, 0x42));
}

#[test]
fn default_binding_only_replaces_missing_trigger() {
    assert_eq!(hotkey_binding("alt+f4"), (MOD_ALT, 0x73));
    assert_eq!(hotkey_binding(""), (MOD_CONTROL, 0x42));
    assert_eq!(hotkey_binding("ctrl+shift"), (MOD_CONTROL, 0x42));
}

#[test]
fn tokens_are_trimmed() {
    assert_eq!(parse_hotkey("  ctrl +\tspace "), Some((MOD_CONTROL, 0x20)));
    assert_eq!(parse_hotkey("ctrl+\u{3000}q"), Some((MOD_CONTROL, 0x51)));
}

#[test]
fn function_keys() {
    assert_eq!(parse_hotkey("f1"), Some((0, 0x70)));
    assert_eq!(parse_hotkey("shift+f12"), Some((MOD_SHIFT, 0x7B)));
    assert_eq!(parse_hotkey("f24"), Some((0, 0x87)));
    assert_eq!(parse_hotkey("f01"), Some((0, 0x70)));
    assert_eq!(parse_hotkey("f25"), None);
    assert_eq!(parse_hotkey("f0"), None);
    assert_eq!(parse_hotkey("fx"), None);
    assert_eq!(parse_hotkey("f"), Some((0, 0x46)));
}

#[test]
fn named_keys_and_aliases() {
    assert_eq!(parse_hotkey("win+pgdn"), Some((MOD_WIN, 0x22)));
    assert_eq!(parse_hotkey("control+windows+prtsc"), Some((MOD_CONTROL | MOD_WIN, 0x2C)));
    assert_eq!(parse_hotkey("alt+return"), Some((MOD_ALT, 0x0D)));
    assert_eq!(parse_hotkey("esc"), Some((0, 0x1B)));
    assert_eq!(parse_hotkey("ctrl+scrolllock"), Some((MOD_CONTROL, 0x91)));
    assert_eq!(parse_hotkey("ctrl+5"), Some((MOD_CONTROL, 0x35)));
}

#[test]
fn exactly_one_trigger_token() {
    assert_eq!(parse_hotkey("ctrl+a+b"), None);
    assert_eq!(parse_hotkey("ctrl+b+b"), None);
    assert_eq!(parse_hotkey("ctrl+xyz+b"), Some((MOD_CONTROL, 0x42)));
    assert_eq!(parse_hotkey("ctrl+-"), None);
}

#[test]
fn repeated_modifiers_count_once() {
    assert_eq!(parse_hotkey("ctrl+control+b"), Some((MOD_CONTROL, 0x42)));
}

#[test]
fn formats_bindings() {
    assert_eq!(format_hotkey(MOD_CONTROL | MOD_SHIFT, 0x4C), Some("ctrl+shift+l".to_string()));
    assert_eq!(
        format_hotkey(MOD_CONTROL | MOD_ALT | MOD_SHIFT | MOD_WIN, 0x70),
        Some("ctrl+alt+shift+win+f1".to_string())
    );
    assert_eq!(format_hotkey(0, 0x20), Some("space".to_string()));
    assert_eq!(format_hotkey(MOD_ALT, 0x81), Some("alt+f18".to_string()));
    assert_eq!(format_hotkey(0, 0x07), None);
    assert_eq!(format_hotkey(MOD_CONTROL, 0xA2), None);
}

#[test]
fn format_then_parse_gives_binding_back() {
    let mut named = 0;
    for vk in 0u32..256 {
        for mods in 0u32..16 {
            if let Some(text) = format_hotkey(mods, vk) {
                assert_eq!(parse_hotkey(&text), Some((mods, vk)), "{}", text);
                if mods == 0 {
                    named += 1;
                }
            }
        }
    }
    // 26 letters, 10 digits, 24 function keys and 19 named keys.
    assert_eq!(named, 79);
}
