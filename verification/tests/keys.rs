use evdev::{EventType, Key, RelativeAxisType};
use glide_kvm::keycodes::{
    is_keyboard_key_code, keyboard_key_codes, mouse_axis_codes, mouse_button_codes, BTN_LEFT,
    BTN_MIDDLE, BTN_RIGHT, EV_KEY, EV_REL, EV_SYN, KEY_A, KEY_ESC, REL_WHEEL, REL_X, REL_Y,
    SYN_REPORT, VIRTUAL_KEYBOARD_NAME, VIRTUAL_MOUSE_NAME,
};
use glide_kvm::keymap::xdotool_name_to_evdev;

fn name_table() -> Vec<(&'static str, Key)> {
    vec![
        ("a", Key::KEY_A),
        ("b", Key::KEY_B),
        ("c", Key::KEY_C),
        ("d", Key::KEY_D),
        ("e", Key::KEY_E),
        ("f", Key::KEY_F),
        ("g", Key::KEY_G),
        ("h", Key::KEY_H),
        ("i", Key::KEY_I),
        ("j", Key::KEY_J),
        ("k", Key::KEY_K),
        ("l", Key::KEY_L),
        ("m", Key::KEY_M),
        ("n", Key::KEY_N),
        ("o", Key::KEY_O),
        ("p", Key::KEY_P),
        ("q", Key::KEY_Q),
        ("r", Key::KEY_R),
        ("s", Key::KEY_S),
        ("t", Key::KEY_T),
        ("u", Key::KEY_U),
        ("v", Key::KEY_V),
        ("w", Key::KEY_W),
        ("x", Key::KEY_X),
        ("y", Key::KEY_Y),
        ("z", Key::KEY_Z),
        ("0", Key::KEY_0),
        ("1", Key::KEY_1),
        ("2", Key::KEY_2),
        ("3", Key::KEY_3),
        ("4", Key::KEY_4),
        ("5", Key::KEY_5),
        ("6", Key::KEY_6),
        ("7", Key::KEY_7),
        ("8", Key::KEY_8),
        ("9", Key::KEY_9),
        ("Return", Key::KEY_ENTER),
        ("BackSpace", Key::KEY_BACKSPACE),
        ("Tab", Key::KEY_TAB),
        ("space", Key::KEY_SPACE),
        ("Delete", Key::KEY_DELETE),
        ("Insert", Key::KEY_INSERT),
        ("Home", Key::KEY_HOME),
        ("End", Key::KEY_END),
        ("Prior", Key::KEY_PAGEUP),
        ("Next", Key::KEY_PAGEDOWN),
        ("Up", Key::KEY_UP),
        ("Down", Key::KEY_DOWN),
        ("Left", Key::KEY_LEFT),
        ("Right", Key::KEY_RIGHT),
        ("F1", Key::KEY_F1),
        ("F2", Key::KEY_F2),
        ("F3", Key::KEY_F3),
        ("F4", Key::KEY_F4),
        ("F5", Key::KEY_F5),
        ("F6", Key::KEY_F6),
        ("F7", Key::KEY_F7),
        ("F8", Key::KEY_F8),
        ("F9", Key::KEY_F9),
        ("F10", Key::KEY_F10),
        ("F11", Key::KEY_F11),
        ("F12", Key::KEY_F12),
        ("shift", Key::KEY_LEFTSHIFT),
        ("ctrl", Key::KEY_LEFTCTRL),
        ("alt", Key::KEY_LEFTALT),
        ("super", Key::KEY_LEFTMETA),
        ("Caps_Lock", Key::KEY_CAPSLOCK),
        ("Escape", Key::KEY_ESC),
        ("comma", Key::KEY_COMMA),
        ("period", Key::KEY_DOT),
        ("semicolon", Key::KEY_SEMICOLON),
        ("apostrophe", Key::KEY_APOSTROPHE),
        ("bracketleft", Key::KEY_LEFTBRACE),
        ("bracketright", Key::KEY_RIGHTBRACE),
        ("backslash", Key::KEY_BACKSLASH),
        ("slash", Key::KEY_SLASH),
        ("minus", Key::KEY_MINUS),
        ("equal", Key::KEY_EQUAL),
        ("grave", Key::KEY_GRAVE),
    ]
}

fn keyboard_keys_of_the_device() -> Vec<Key> {
    vec![
        Key::KEY_A,
        Key::KEY_B,
        Key::KEY_C,
        Key::KEY_D,
        Key::KEY_E,
        Key::KEY_F,
        Key::KEY_G,
        Key::KEY_H,
        Key::KEY_I,
        Key::KEY_J,
        Key::KEY_K,
        Key::KEY_L,
        Key::KEY_M,
        Key::KEY_N,
        Key::KEY_O,
        Key::KEY_P,
        Key::KEY_Q,
        Key::KEY_R,
        Key::KEY_S,
        Key::KEY_T,
        Key::KEY_U,
        Key::KEY_V,
        Key::KEY_W,
        Key::KEY_X,
        Key::KEY_Y,
        Key::KEY_Z,
        Key::KEY_0,
        Key::KEY_1,
        Key::KEY_2,
        Key::KEY_3,
        Key::KEY_4,
        Key::KEY_5,
        Key::KEY_6,
        Key::KEY_7,
        Key::KEY_8,
        Key::KEY_9,
        Key::KEY_ENTER,
        Key::KEY_BACKSPACE,
        Key::KEY_TAB,
        Key::KEY_SPACE,
        Key::KEY_ESC,
        Key::KEY_DELETE,
        Key::KEY_INSERT,
        Key::KEY_HOME,
        Key::KEY_END,
        Key::KEY_PAGEUP,
        Key::KEY_PAGEDOWN,
        Key::KEY_UP,
        Key::KEY_DOWN,
        Key::KEY_LEFT,
        Key::KEY_RIGHT,
        Key::KEY_F1,
        Key::KEY_F2,
        Key::KEY_F3,
        Key::KEY_F4,
        Key::KEY_F5,
        Key::KEY_F6,
        Key::KEY_F7,
        Key::KEY_F8,
        Key::KEY_F9,
        Key::KEY_F10,
        Key::KEY_F11,
        Key::KEY_F12,
        Key::KEY_LEFTSHIFT,
        Key::KEY_RIGHTSHIFT,
        Key::KEY_LEFTCTRL,
        Key::KEY_RIGHTCTRL,
        Key::KEY_LEFTALT,
        Key::KEY_RIGHTALT,
        Key::KEY_LEFTMETA,
        Key::KEY_RIGHTMETA,
        Key::KEY_CAPSLOCK,
        Key::KEY_COMMA,
        Key::KEY_DOT,
        Key::KEY_SEMICOLON,
        Key::KEY_APOSTROPHE,
        Key::KEY_LEFTBRACE,
        Key::KEY_RIGHTBRACE,
        Key::KEY_BACKSLASH,
        Key::KEY_SLASH,
        Key::KEY_MINUS,
        Key::KEY_EQUAL,
        Key::KEY_GRAVE,
    ]
}

#[test]
fn every_table_name_maps_to_its_evdev_key() {
    for (name, key) in name_table() {
        assert_eq!(xdotool_name_to_evdev(name), Some(key.code()), "name {}", name);
    }
}

#[test]
fn unknown_and_differently_cased_names_are_not_mapped() {
    for name in ["", "A", "return", "Shift", "f1", "F13", "KP_Enter", "aa", " a", "Escape "] {
        assert_eq!(xdotool_name_to_evdev(name), None, "name {:?}", name);
    }
}

#[test]
fn table_names_map_to_distinct_keys() {
    let table = name_table();
    for (i, (a, _)) in table.iter().enumerate() {
        for (b, _) in table.iter().skip(i + 1) {
            assert_ne!(xdotool_name_to_evdev(a), xdotool_name_to_evdev(b), "{} and {}", a, b);
        }
    }
}

#[test]
fn every_mapped_key_is_declared_by_the_keyboard() {
    let declared = keyboard_key_codes();
    for (name, _) in name_table() {
        let code = xdotool_name_to_evdev(name).unwrap();
        assert!(declared.contains(&code), "name {}", name);
    }
}

#[test]
fn keyboard_declares_exactly_the_original_key_set() {
    let mut expected: Vec<u16> = keyboard_keys_of_the_device().iter().map(|k| k.code()).collect();
    expected.sort();
    assert_eq!(expected.len(), 83);
    assert_eq!(keyboard_key_codes(), expected);
}

#[test]
fn keyboard_membership_matches_the_list() {
    let declared = keyboard_key_codes();
    for code in 0u16..300 {
        assert_eq!(is_keyboard_key_code(code), declared.contains(&code), "code {}", code);
    }
    assert!(!is_keyboard_key_code(Key::KEY_KPASTERISK.code()));
    assert!(!is_keyboard_key_code(Key::KEY_NUMLOCK.code()));
    assert!(is_keyboard_key_code(KEY_A));
    assert!(is_keyboard_key_code(KEY_ESC));
}

#[test]
fn mouse_codes_match_evdev() {
    assert_eq!(
        mouse_button_codes(),
        vec![Key::BTN_LEFT.code(), Key::BTN_RIGHT.code(), Key::BTN_MIDDLE.code()]
    );
    assert_eq!(
        mouse_axis_codes(),
        vec![RelativeAxisType::REL_X.0, RelativeAxisType::REL_Y.0, RelativeAxisType::REL_WHEEL.0]
    );
    assert_eq!(BTN_LEFT, 0x110);
    assert_eq!(BTN_RIGHT, 0x111);
    assert_eq!(BTN_MIDDLE, 0x112);
    assert_eq!((REL_X, REL_Y, REL_WHEEL), (0, 1, 8));
}

#[test]
fn event_types_match_evdev() {
    assert_eq!(EV_SYN, EventType::SYNCHRONIZATION.0);
    assert_eq!(EV_KEY, EventType::KEY.0);
    assert_eq!(EV_REL, EventType::RELATIVE.0);
    assert_eq!(SYN_REPORT, 0);
}

#[test]
fn device_names() {
    assert_eq!(VIRTUAL_MOUSE_NAME, "glide-kvm Virtual Mouse");
    assert_eq!(VIRTUAL_KEYBOARD_NAME, "glide-kvm Virtual Keyboard");
}
