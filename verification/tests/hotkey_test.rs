#![allow(unused_imports)]
use opencode_voice::input::keyboard::no_devices_message;
use evdev::Key;
use opencode_voice::input::hotkey::format_key_name;
use opencode_voice::input::hotkey::list_key_names;
use opencode_voice::input::hotkey::resolve_key_code;
use opencode_voice::input::keyboard::hotkey_event;
use opencode_voice::input::keyboard::key_action;
use opencode_voice::input::keyboard::KeyAction;
use opencode_voice::state::InputEvent;


#[test]
fn test_format_key_name_right_option() {
    assert_eq!(format_key_name("right_option"), "Right Option");
}

#[test]
fn test_format_key_name_f13() {
    assert_eq!(format_key_name("f13"), "F13");
}

#[test]
fn test_format_key_name_numpad_enter() {
    assert_eq!(format_key_name("numpad_enter"), "Numpad Enter");
}

#[test]
fn test_format_key_name_space() {
    assert_eq!(format_key_name("space"), "Space");
}

#[test]
fn test_list_key_names_sorted() {
    let names = list_key_names();
    assert!(!names.is_empty());
    assert!(names.windows(2).all(|w| w[0] <= w[1]));
    assert!(names.contains(&"right_option"));
    assert!(names.contains(&"space"));
    assert!(names.contains(&"f1"));
}

#[test]
fn hotkey_test_key_map_has_60_plus_entries() {
    let names = list_key_names();
    assert!(
        names.len() >= 60,
        "KEY_MAP should have at least 60 entries, has {}",
        names.len()
    );
}

#[test]
fn test_list_key_names_includes_section() {
    let names = list_key_names();
    assert!(names.contains(&"section"));
}

#[test]
fn test_list_key_names_includes_numpad_clear() {
    let names = list_key_names();
    assert!(names.contains(&"numpad_clear"));
}


#[test]
fn hotkey_linux_test_resolve_key_right_option() {
    let result = resolve_key_code("right_option");
    assert!(result.is_ok());
    assert_eq!(result.unwrap(), Key::KEY_RIGHTALT.code());
}

#[test]
fn hotkey_linux_test_resolve_key_alias_right_alt() {
    let k1 = resolve_key_code("right_option").unwrap();
    let k2 = resolve_key_code("right_alt").unwrap();
    assert_eq!(k1, k2);
}

#[test]
fn hotkey_linux_test_resolve_key_decimal_number() {
    let result = resolve_key_code("57"); // KEY_SPACE = 57
    assert!(result.is_ok());
}

#[test]
fn hotkey_linux_test_resolve_key_hex_number() {
    let result = resolve_key_code("0x39"); // KEY_SPACE = 0x39 = 57
    assert!(result.is_ok());
}

#[test]
fn hotkey_linux_test_resolve_key_unknown() {
    let result = resolve_key_code("not_a_key");
    assert!(result.is_err());
}

#[test]
fn hotkey_linux_test_resolve_key_space() {
    assert_eq!(resolve_key_code("space").unwrap(), Key::KEY_SPACE.code());
}

#[test]
fn hotkey_linux_test_resolve_key_f1() {
    assert_eq!(resolve_key_code("f1").unwrap(), Key::KEY_F1.code());
}

#[test]
fn test_resolve_key_f13() {
    assert_eq!(resolve_key_code("f13").unwrap(), Key::KEY_F13.code());
}

#[test]
fn hotkey_linux_test_resolve_key_left_command() {
    assert_eq!(resolve_key_code("left_command").unwrap(), Key::KEY_LEFTMETA.code());
}

#[test]
fn hotkey_linux_test_resolve_key_caps_lock() {
    assert_eq!(resolve_key_code("caps_lock").unwrap(), Key::KEY_CAPSLOCK.code());
}

#[test]
fn hotkey_linux_test_resolve_key_escape() {
    assert_eq!(resolve_key_code("escape").unwrap(), Key::KEY_ESC.code());
}

#[test]
fn hotkey_linux_test_key_map_has_60_plus_entries() {
    let map = list_key_names();
    assert!(
        map.len() >= 60,
        "KEY_MAP should have at least 60 entries, has {}",
        map.len()
    );
}

#[test]
fn test_resolve_key_modifiers() {
    assert_eq!(resolve_key_code("left_alt").unwrap(), Key::KEY_LEFTALT.code());
    assert_eq!(resolve_key_code("left_shift").unwrap(), Key::KEY_LEFTSHIFT.code());
    assert_eq!(resolve_key_code("left_ctrl").unwrap(), Key::KEY_LEFTCTRL.code());
    assert_eq!(resolve_key_code("right_shift").unwrap(), Key::KEY_RIGHTSHIFT.code());
    assert_eq!(resolve_key_code("right_ctrl").unwrap(), Key::KEY_RIGHTCTRL.code());
}

#[test]
fn test_resolve_key_numpad() {
    assert_eq!(resolve_key_code("numpad_0").unwrap(), Key::KEY_KP0.code());
    assert_eq!(resolve_key_code("numpad_enter").unwrap(), Key::KEY_KPENTER.code());
    assert_eq!(resolve_key_code("numpad_plus").unwrap(), Key::KEY_KPPLUS.code());
    assert_eq!(resolve_key_code("numpad_add").unwrap(), Key::KEY_KPPLUS.code());
}

#[test]
fn test_resolve_key_decimal_and_hex_give_the_code() {
    assert_eq!(resolve_key_code("57").unwrap(), 57);
    assert_eq!(resolve_key_code("0x39").unwrap(), 57);
    assert_eq!(resolve_key_code("0X39").unwrap(), 57);
}

#[test]
fn test_resolve_key_number_too_large_is_unknown() {
    assert!(resolve_key_code("70000").is_err());
}

#[test]
fn test_resolve_key_unknown_message_names_the_key() {
    let err = resolve_key_code("not_a_key").unwrap_err();
    assert!(err.contains("not_a_key"));
}

#[test]
fn test_every_listed_key_resolves() {
    for name in list_key_names() {
        assert!(resolve_key_code(name).is_ok(), "{} should resolve", name);
    }
}

#[test]
fn test_list_key_names_strictly_sorted() {
    let names = list_key_names();
    assert!(names.windows(2).all(|w| w[0] < w[1]));
}

#[test]
fn test_format_key_name_empty_pieces() {
    assert_eq!(format_key_name("a__b"), "A  B");
    assert_eq!(format_key_name(""), "");
}

#[test]
fn test_key_action_quit_and_toggle() {
    assert_eq!(key_action('c', true, ' ', 0), KeyAction::Quit);
    assert_eq!(key_action('q', false, ' ', 0), KeyAction::Quit);
    assert_eq!(key_action(' ', false, ' ', 200), KeyAction::Toggle);
    assert_eq!(key_action(' ', false, ' ', 199), KeyAction::Ignore);
    assert_eq!(key_action('c', false, ' ', 1000), KeyAction::Ignore);
    assert_eq!(key_action('x', false, 'x', 500), KeyAction::Toggle);
}

#[test]
fn test_hotkey_press_repeat_release() {
    let (pressed, ev) = hotkey_event(false, 1);
    assert!(pressed);
    assert_eq!(ev, vec![InputEvent::KeyDown]);
    let (pressed, ev) = hotkey_event(pressed, 1);
    assert!(pressed);
    assert!(ev.is_empty());
    let (pressed, ev) = hotkey_event(pressed, 2);
    assert!(pressed);
    assert!(ev.is_empty());
    let (pressed, ev) = hotkey_event(pressed, 0);
    assert!(!pressed);
    assert_eq!(ev, vec![InputEvent::KeyUp, InputEvent::Toggle]);
}

#[test]
fn test_no_devices_messages() {
    let none = no_devices_message(0, 5, 0, &vec![], "KEY_F13");
    assert!(none.starts_with("No input devices accessible."));
    let no_kb = no_devices_message(2, 7, 0, &vec![], "KEY_F13");
    assert!(no_kb.starts_with(
        "Cannot access keyboard input devices (2 of 7 /dev/input/event* devices accessible, but none are keyboards).\n"
    ));
    let kb = no_devices_message(3, 7, 2, &vec!["A".to_string(), "B".to_string()], "KEY_F13");
    assert_eq!(
        kb,
        "Found 2 keyboard(s) (A, B) but none report support for key KEY_F13.\n  Try a different key with --hotkey, or use --no-global for terminal-only input."
    );
}
