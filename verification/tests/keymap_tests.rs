use macrdp::input::{KeyAction, KeyInput, KeyboardInjector, MouseAction, MouseButton, MouseEventKind, CgMouseButton, MouseInjector, PointerInput, PointerTracker};
use macrdp::keymap::scancode_to_keycode;

#[test]
fn test_common_keys() {
    assert_eq!(scancode_to_keycode(0x1E, false), Some(0x00));
    assert_eq!(scancode_to_keycode(0x1C, false), Some(0x24));
    assert_eq!(scancode_to_keycode(0x39, false), Some(0x31));
    assert_eq!(scancode_to_keycode(0x01, false), Some(0x35));
}

#[test]
fn test_modifier_keys() {
    assert_eq!(scancode_to_keycode(0x2A, false), Some(0x38));
    assert_eq!(scancode_to_keycode(0x1D, false), Some(0x3B));
    assert_eq!(scancode_to_keycode(0x38, false), Some(0x37));
}

#[test]
fn test_extended_keys() {
    assert_eq!(scancode_to_keycode(0x1D, true), Some(0x3E));
    assert_eq!(scancode_to_keycode(0x38, true), Some(0x36));
    assert_eq!(scancode_to_keycode(0x5B, true), Some(0x3A));
    assert_eq!(scancode_to_keycode(0x5C, true), Some(0x3D));
    assert_eq!(scancode_to_keycode(0x48, true), Some(0x7E));
    assert_eq!(scancode_to_keycode(0x50, true), Some(0x7D));
    assert_eq!(scancode_to_keycode(0x4B, true), Some(0x7B));
    assert_eq!(scancode_to_keycode(0x4D, true), Some(0x7C));
}

#[test]
fn test_unknown_scancode() {
    assert_eq!(scancode_to_keycode(0xFF, false), None);
}

#[test]
fn test_number_keys() {
    assert_eq!(scancode_to_keycode(0x02, false), Some(0x12));
    assert_eq!(scancode_to_keycode(0x0B, false), Some(0x1D));
}

#[test]
fn extended_flag_selects_the_other_table() {
    // 0x1C is Enter on the main block and Numpad Enter when extended.
    assert_eq!(scancode_to_keycode(0x1C, true), Some(0x4C));
    assert_eq!(scancode_to_keycode(0x35, true), Some(0x4B));
    assert_eq!(scancode_to_keycode(0x1E, true), None);
}

#[test]
fn keyboard_actions() {
    let kb = KeyboardInjector;
    assert_eq!(kb.action(KeyInput::Pressed { code: 0x1E, extended: false }), KeyAction::Key { keycode: 0x00, pressed: true });
    assert_eq!(kb.action(KeyInput::Released { code: 0x48, extended: true }), KeyAction::Key { keycode: 0x7E, pressed: false });
    assert_eq!(kb.action(KeyInput::Pressed { code: 0xFF, extended: false }), KeyAction::Ignore);
    assert_eq!(kb.action(KeyInput::UnicodePressed(0x263A)), KeyAction::Unicode { ch: 0x263A, pressed: true });
    assert_eq!(kb.action(KeyInput::UnicodeReleased(65)), KeyAction::Unicode { ch: 65, pressed: false });
    assert_eq!(kb.action(KeyInput::Synchronize(3)), KeyAction::Ignore);
}

#[test]
fn mouse_button_events() {
    let m = MouseInjector;
    assert_eq!(m.button_event(MouseButton::Left, true), (MouseEventKind::LeftMouseDown, CgMouseButton::Left));
    assert_eq!(m.button_event(MouseButton::Right, false), (MouseEventKind::RightMouseUp, CgMouseButton::Right));
    assert_eq!(m.button_event(MouseButton::Middle, true), (MouseEventKind::OtherMouseDown, CgMouseButton::Center));
}

#[test]
fn buttons_act_at_last_pointer_position() {
    let mut t = PointerTracker::new();
    assert_eq!(t.on_input(PointerInput::Button { button: MouseButton::Left, pressed: true }),
        MouseAction::Button { button: MouseButton::Left, pressed: true, x: 0, y: 0 });
    assert_eq!(t.on_input(PointerInput::Move { x: 640, y: 360 }), MouseAction::MoveTo { x: 640, y: 360 });
    assert_eq!(t.on_input(PointerInput::Button { button: MouseButton::Right, pressed: false }),
        MouseAction::Button { button: MouseButton::Right, pressed: false, x: 640, y: 360 });
    assert_eq!(t.on_input(PointerInput::VerticalScroll(-120)), MouseAction::Scroll(-120));
    assert_eq!(t.on_input(PointerInput::Other), MouseAction::Ignore);
    assert_eq!(t.last_x, 640);
    assert_eq!(t.last_y, 360);
}

#[test]
fn print_screen_and_menu_keys() {
    assert_eq!(scancode_to_keycode(0x37, true), Some(0x69));
    assert_eq!(scancode_to_keycode(0x5D, true), Some(0x6E));
}

#[test]
fn keymap_is_one_to_one_below_0x80() {
    let mut seen = std::collections::HashMap::new();
    for ext in [false, true] {
        for s in 0..=255u8 {
            if let Some(k) = scancode_to_keycode(s, ext) {
                assert!(k < 0x80);
                assert!(seen.insert(k, (s, ext)).is_none(), "keycode {k:#x} given twice");
            }
        }
    }
    assert_eq!(seen.len(), 85 + 18);
}
