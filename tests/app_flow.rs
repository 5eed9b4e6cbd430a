use pawgate::config::{color_ref, Config};
use pawgate::menu::{lock_menu_label, menu_command, overlay_update, MenuCommand};
use pawgate::pump::{pump_action, PumpAction, WM_QUIT};
use pawgate::state::AppState;

#[test]
fn pump_stops_on_quit() {
    assert_eq!(pump_action(true, None), PumpAction::Unhook);
    assert_eq!(pump_action(true, Some(0x100)), PumpAction::Unhook);
    assert_eq!(pump_action(false, Some(WM_QUIT)), PumpAction::Unhook);
    assert_eq!(pump_action(false, Some(0x100)), PumpAction::Dispatch);
    assert_eq!(pump_action(false, None), PumpAction::Wait);
}

#[test]
fn app_state_flags() {
    let state = AppState::new();
    assert!(!state.is_locked());
    assert!(!state.quit_requested());
    assert!(state.toggle_locked());
    assert!(state.is_locked());
    assert!(!state.toggle_locked());
    assert!(!state.is_locked());
    state.request_quit();
    assert!(state.quit_requested());
}

#[test]
fn menu_commands() {
    assert_eq!(menu_command("lock"), MenuCommand::ToggleLock);
    assert_eq!(menu_command("settings"), MenuCommand::OpenSettings);
    assert_eq!(menu_command("exit"), MenuCommand::Exit);
    assert_eq!(menu_command("Exit"), MenuCommand::Ignore);
    assert_eq!(menu_command(""), MenuCommand::Ignore);
}

#[test]
fn menu_label_and_overlay() {
    assert_eq!(lock_menu_label(false), "Lock Keyboard");
    assert_eq!(lock_menu_label(true), "Unlock Keyboard");
    assert_eq!(overlay_update(false, true), Some(true));
    assert_eq!(overlay_update(true, false), Some(false));
    assert_eq!(overlay_update(true, true), None);
}

#[test]
fn default_config() {
    let c = Config::default();
    assert_eq!(c.hotkey, "ctrl+b");
    assert_eq!(f32::from_bits(c.opacity_bits), 0.3f32);
    assert!(c.notifications_enabled);
    assert_eq!(c.overlay_color, "#1B5E20");
    assert_eq!(c.parse_overlay_color(), (27, 94, 32));
}

fn color(text: &str) -> (u8, u8, u8) {
    let mut c = Config::default();
    c.overlay_color = text.to_string();
    c.parse_overlay_color()
}

#[test]
fn overlay_colors() {
    assert_eq!(color("#2D5A27"), (0x2D, 0x5A, 0x27));
    assert_eq!(color("ff8000"), (255, 128, 0));
    assert_eq!(color("##0a0B0c"), (10, 11, 12));
    assert_eq!(color("#+f+f+f"), (15, 15, 15));
    assert_eq!(color("#abc"), (27, 94, 32));
    assert_eq!(color("#GG0000"), (27, 94, 32));
    assert_eq!(color("#1B5E200"), (27, 94, 32));
    assert_eq!(color("#a\u{e9}123"), (27, 94, 32));
    assert_eq!(color(""), (27, 94, 32));
}

#[test]
fn colorref_layout() {
    assert_eq!(color_ref(0x01, 0x02, 0x03), 0x030201);
    assert_eq!(color_ref(255, 255, 255), 0xFFFFFF);
    assert_eq!(color_ref(27, 94, 32), 27 + 94 * 256 + 32 * 65536);
}
