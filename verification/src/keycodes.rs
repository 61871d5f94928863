//! Event types and codes of the Linux input subsystem, in the numbering of
//! `linux/input-event-codes.h`, and the capabilities of the two virtual
//! devices through which received input is replayed.

use vstd::prelude::*;

verus! {

/// Event type of synchronization markers (`EV_SYN`).
pub const EV_SYN: u16 = 0;
/// Event type of key and button changes (`EV_KEY`).
pub const EV_KEY: u16 = 1;
/// Event type of relative axis motion (`EV_REL`).
pub const EV_REL: u16 = 2;

/// Code of the report marker that closes a batch of events (`SYN_REPORT`).
pub const SYN_REPORT: u16 = 0;

/// Horizontal relative motion.
pub const REL_X: u16 = 0;
/// Vertical relative motion.
pub const REL_Y: u16 = 1;
/// Vertical wheel motion.
pub const REL_WHEEL: u16 = 8;

/// Left mouse button.
pub const BTN_LEFT: u16 = 272;
/// Right mouse button.
pub const BTN_RIGHT: u16 = 273;
/// Middle mouse button.
pub const BTN_MIDDLE: u16 = 274;

/// Name under which the virtual mouse registers itself.
pub const VIRTUAL_MOUSE_NAME: &'static str = "glide-kvm Virtual Mouse";
/// Name under which the virtual keyboard registers itself.
pub const VIRTUAL_KEYBOARD_NAME: &'static str = "glide-kvm Virtual Keyboard";

/// Key code `KEY_ESC`.
pub const KEY_ESC: u16 = 1;
/// Key code `KEY_1`.
pub const KEY_1: u16 = 2;
/// Key code `KEY_2`.
pub const KEY_2: u16 = 3;
/// Key code `KEY_3`.
pub const KEY_3: u16 = 4;
/// Key code `KEY_4`.
pub const KEY_4: u16 = 5;
/// Key code `KEY_5`.
pub const KEY_5: u16 = 6;
/// Key code `KEY_6`.
pub const KEY_6: u16 = 7;
/// Key code `KEY_7`.
pub const KEY_7: u16 = 8;
/// Key code `KEY_8`.
pub const KEY_8: u16 = 9;
/// Key code `KEY_9`.
pub const KEY_9: u16 = 10;
/// Key code `KEY_0`.
pub const KEY_0: u16 = 11;
/// Key code `KEY_MINUS`.
pub const KEY_MINUS: u16 = 12;
/// Key code `KEY_EQUAL`.
pub const KEY_EQUAL: u16 = 13;
/// Key code `KEY_BACKSPACE`.
pub const KEY_BACKSPACE: u16 = 14;
/// Key code `KEY_TAB`.
pub const KEY_TAB: u16 = 15;
/// Key code `KEY_Q`.
pub const KEY_Q: u16 = 16;
/// Key code `KEY_W`.
pub const KEY_W: u16 = 17;
/// Key code `KEY_E`.
pub const KEY_E: u16 = 18;
/// Key code `KEY_R`.
pub const KEY_R: u16 = 19;
/// Key code `KEY_T`.
pub const KEY_T: u16 = 20;
/// Key code `KEY_Y`.
pub const KEY_Y: u16 = 21;
/// Key code `KEY_U`.
pub const KEY_U: u16 = 22;
/// Key code `KEY_I`.
pub const KEY_I: u16 = 23;
/// Key code `KEY_O`.
pub const KEY_O: u16 = 24;
/// Key code `KEY_P`.
pub const KEY_P: u16 = 25;
/// Key code `KEY_LEFTBRACE`.
pub const KEY_LEFTBRACE: u16 = 26;
/// Key code `KEY_RIGHTBRACE`.
pub const KEY_RIGHTBRACE: u16 = 27;
/// Key code `KEY_ENTER`.
pub const KEY_ENTER: u16 = 28;
/// Key code `KEY_LEFTCTRL`.
pub const KEY_LEFTCTRL: u16 = 29;
/// Key code `KEY_A`.
pub const KEY_A: u16 = 30;
/// Key code `KEY_S`.
pub const KEY_S: u16 = 31;
/// Key code `KEY_D`.
pub const KEY_D: u16 = 32;
/// Key code `KEY_F`.
pub const KEY_F: u16 = 33;
/// Key code `KEY_G`.
pub const KEY_G: u16 = 34;
/// Key code `KEY_H`.
pub const KEY_H: u16 = 35;
/// Key code `KEY_J`.
pub const KEY_J: u16 = 36;
/// Key code `KEY_K`.
pub const KEY_K: u16 = 37;
/// Key code `KEY_L`.
pub const KEY_L: u16 = 38;
/// Key code `KEY_SEMICOLON`.
pub const KEY_SEMICOLON: u16 = 39;
/// Key code `KEY_APOSTROPHE`.
pub const KEY_APOSTROPHE: u16 = 40;
/// Key code `KEY_GRAVE`.
pub const KEY_GRAVE: u16 = 41;
/// Key code `KEY_LEFTSHIFT`.
pub const KEY_LEFTSHIFT: u16 = 42;
/// Key code `KEY_BACKSLASH`.
pub const KEY_BACKSLASH: u16 = 43;
/// Key code `KEY_Z`.
pub const KEY_Z: u16 = 44;
/// Key code `KEY_X`.
pub const KEY_X: u16 = 45;
/// Key code `KEY_C`.
pub const KEY_C: u16 = 46;
/// Key code `KEY_V`.
pub const KEY_V: u16 = 47;
/// Key code `KEY_B`.
pub const KEY_B: u16 = 48;
/// Key code `KEY_N`.
pub const KEY_N: u16 = 49;
/// Key code `KEY_M`.
pub const KEY_M: u16 = 50;
/// Key code `KEY_COMMA`.
pub const KEY_COMMA: u16 = 51;
/// Key code `KEY_DOT`.
pub const KEY_DOT: u16 = 52;
/// Key code `KEY_SLASH`.
pub const KEY_SLASH: u16 = 53;
/// Key code `KEY_RIGHTSHIFT`.
pub const KEY_RIGHTSHIFT: u16 = 54;
/// Key code `KEY_LEFTALT`.
pub const KEY_LEFTALT: u16 = 56;
/// Key code `KEY_SPACE`.
pub const KEY_SPACE: u16 = 57;
/// Key code `KEY_CAPSLOCK`.
pub const KEY_CAPSLOCK: u16 = 58;
/// Key code `KEY_F1`.
pub const KEY_F1: u16 = 59;
/// Key code `KEY_F2`.
pub const KEY_F2: u16 = 60;
/// Key code `KEY_F3`.
pub const KEY_F3: u16 = 61;
/// Key code `KEY_F4`.
pub const KEY_F4: u16 = 62;
/// Key code `KEY_F5`.
pub const KEY_F5: u16 = 63;
/// Key code `KEY_F6`.
pub const KEY_F6: u16 = 64;
/// Key code `KEY_F7`.
pub const KEY_F7: u16 = 65;
/// Key code `KEY_F8`.
pub const KEY_F8: u16 = 66;
/// Key code `KEY_F9`.
pub const KEY_F9: u16 = 67;
/// Key code `KEY_F10`.
pub const KEY_F10: u16 = 68;
/// Key code `KEY_F11`.
pub const KEY_F11: u16 = 87;
/// Key code `KEY_F12`.
pub const KEY_F12: u16 = 88;
/// Key code `KEY_RIGHTCTRL`.
pub const KEY_RIGHTCTRL: u16 = 97;
/// Key code `KEY_RIGHTALT`.
pub const KEY_RIGHTALT: u16 = 100;
/// Key code `KEY_HOME`.
pub const KEY_HOME: u16 = 102;
/// Key code `KEY_UP`.
pub const KEY_UP: u16 = 103;
/// Key code `KEY_PAGEUP`.
pub const KEY_PAGEUP: u16 = 104;
/// Key code `KEY_LEFT`.
pub const KEY_LEFT: u16 = 105;
/// Key code `KEY_RIGHT`.
pub const KEY_RIGHT: u16 = 106;
/// Key code `KEY_END`.
pub const KEY_END: u16 = 107;
/// Key code `KEY_DOWN`.
pub const KEY_DOWN: u16 = 108;
/// Key code `KEY_PAGEDOWN`.
pub const KEY_PAGEDOWN: u16 = 109;
/// Key code `KEY_INSERT`.
pub const KEY_INSERT: u16 = 110;
/// Key code `KEY_DELETE`.
pub const KEY_DELETE: u16 = 111;
/// Key code `KEY_LEFTMETA`.
pub const KEY_LEFTMETA: u16 = 125;
/// Key code `KEY_RIGHTMETA`.
pub const KEY_RIGHTMETA: u16 = 126;

/// The keys that the virtual keyboard declares: the letters, the digits, and
/// the editing, navigation, function, modifier and punctuation keys.
pub open spec fn is_keyboard_key(code: u16) -> bool {
    code == KEY_ESC
    || code == KEY_1
    || code == KEY_2
    || code == KEY_3
    || code == KEY_4
    || code == KEY_5
    || code == KEY_6
    || code == KEY_7
    || code == KEY_8
    || code == KEY_9
    || code == KEY_0
    || code == KEY_MINUS
    || code == KEY_EQUAL
    || code == KEY_BACKSPACE
    || code == KEY_TAB
    || code == KEY_Q
    || code == KEY_W
    || code == KEY_E
    || code == KEY_R
    || code == KEY_T
    || code == KEY_Y
    || code == KEY_U
    || code == KEY_I
    || code == KEY_O
    || code == KEY_P
    || code == KEY_LEFTBRACE
    || code == KEY_RIGHTBRACE
    || code == KEY_ENTER
    || code == KEY_LEFTCTRL
    || code == KEY_A
    || code == KEY_S
    || code == KEY_D
    || code == KEY_F
    || code == KEY_G
    || code == KEY_H
    || code == KEY_J
    || code == KEY_K
    || code == KEY_L
    || code == KEY_SEMICOLON
    || code == KEY_APOSTROPHE
    || code == KEY_GRAVE
    || code == KEY_LEFTSHIFT
    || code == KEY_BACKSLASH
    || code == KEY_Z
    || code == KEY_X
    || code == KEY_C
    || code == KEY_V
    || code == KEY_B
    || code == KEY_N
    || code == KEY_M
    || code == KEY_COMMA
    || code == KEY_DOT
    || code == KEY_SLASH
    || code == KEY_RIGHTSHIFT
    || code == KEY_LEFTALT
    || code == KEY_SPACE
    || code == KEY_CAPSLOCK
    || code == KEY_F1
    || code == KEY_F2
    || code == KEY_F3
    || code == KEY_F4
    || code == KEY_F5
    || code == KEY_F6
    || code == KEY_F7
    || code == KEY_F8
    || code == KEY_F9
    || code == KEY_F10
    || code == KEY_F11
    || code == KEY_F12
    || code == KEY_RIGHTCTRL
    || code == KEY_RIGHTALT
    || code == KEY_HOME
    || code == KEY_UP
    || code == KEY_PAGEUP
    || code == KEY_LEFT
    || code == KEY_RIGHT
    || code == KEY_END
    || code == KEY_DOWN
    || code == KEY_PAGEDOWN
    || code == KEY_INSERT
    || code == KEY_DELETE
    || code == KEY_LEFTMETA
    || code == KEY_RIGHTMETA
}

/// The buttons that the virtual mouse declares.
pub open spec fn is_mouse_button(code: u16) -> bool {
    code == BTN_LEFT || code == BTN_RIGHT || code == BTN_MIDDLE
}

/// The relative axes that the virtual mouse declares.
pub open spec fn is_mouse_axis(code: u16) -> bool {
    code == REL_X || code == REL_Y || code == REL_WHEEL
}

/// Tells whether the virtual keyboard declares `code`.
pub fn is_keyboard_key_code(code: u16) -> (r: bool)
    ensures
        r == is_keyboard_key(code),
{
    code == KEY_ESC
    || code == KEY_1
    || code == KEY_2
    || code == KEY_3
    || code == KEY_4
    || code == KEY_5
    || code == KEY_6
    || code == KEY_7
    || code == KEY_8
    || code == KEY_9
    || code == KEY_0
    || code == KEY_MINUS
    || code == KEY_EQUAL
    || code == KEY_BACKSPACE
    || code == KEY_TAB
    || code == KEY_Q
    || code == KEY_W
    || code == KEY_E
    || code == KEY_R
    || code == KEY_T
    || code == KEY_Y
    || code == KEY_U
    || code == KEY_I
    || code == KEY_O
    || code == KEY_P
    || code == KEY_LEFTBRACE
    || code == KEY_RIGHTBRACE
    || code == KEY_ENTER
    || code == KEY_LEFTCTRL
    || code == KEY_A
    || code == KEY_S
    || code == KEY_D
    || code == KEY_F
    || code == KEY_G
    || code == KEY_H
    || code == KEY_J
    || code == KEY_K
    || code == KEY_L
    || code == KEY_SEMICOLON
    || code == KEY_APOSTROPHE
    || code == KEY_GRAVE
    || code == KEY_LEFTSHIFT
    || code == KEY_BACKSLASH
    || code == KEY_Z
    || code == KEY_X
    || code == KEY_C
    || code == KEY_V
    || code == KEY_B
    || code == KEY_N
    || code == KEY_M
    || code == KEY_COMMA
    || code == KEY_DOT
    || code == KEY_SLASH
    || code == KEY_RIGHTSHIFT
    || code == KEY_LEFTALT
    || code == KEY_SPACE
    || code == KEY_CAPSLOCK
    || code == KEY_F1
    || code == KEY_F2
    || code == KEY_F3
    || code == KEY_F4
    || code == KEY_F5
    || code == KEY_F6
    || code == KEY_F7
    || code == KEY_F8
    || code == KEY_F9
    || code == KEY_F10
    || code == KEY_F11
    || code == KEY_F12
    || code == KEY_RIGHTCTRL
    || code == KEY_RIGHTALT
    || code == KEY_HOME
    || code == KEY_UP
    || code == KEY_PAGEUP
    || code == KEY_LEFT
    || code == KEY_RIGHT
    || code == KEY_END
    || code == KEY_DOWN
    || code == KEY_PAGEDOWN
    || code == KEY_INSERT
    || code == KEY_DELETE
    || code == KEY_LEFTMETA
    || code == KEY_RIGHTMETA
}

/// One past the largest code that [`keyboard_key_codes`] examines.
pub const KEYBOARD_CODE_LIMIT: u16 = 256;

/// Every key code the virtual keyboard declares, each once, in increasing order.
pub fn keyboard_key_codes() -> (r: Vec<u16>)
    ensures
        forall|code: u16| r@.contains(code) <==> is_keyboard_key(code),
        forall|i: int, j: int| 0 <= i < j < r.len() ==> r[i] < r[j],
{
    let mut r: Vec<u16> = Vec::new();
    let mut code: u16 = 0;
    while code < KEYBOARD_CODE_LIMIT
        invariant
            code <= KEYBOARD_CODE_LIMIT,
            forall|i: int| 0 <= i < r.len() ==> is_keyboard_key(#[trigger] r[i]) && r[i] < code,
            forall|i: int, j: int| 0 <= i < j < r.len() ==> r[i] < r[j],
            forall|k: u16| k < code && is_keyboard_key(k) ==> r@.contains(k),
        decreases KEYBOARD_CODE_LIMIT - code,
    {
        if is_keyboard_key_code(code) {
            let ghost before = r@;
            r.push(code);
            assert(r[r.len() - 1] == code);
            assert forall|k: u16| before.contains(k) implies r@.contains(k) by {
                let i = choose|i: int| 0 <= i < before.len() && before[i] == k;
                assert(r@[i] == k);
            }
        }
        code = code + 1;
    }
    assert forall|k: u16| r@.contains(k) implies is_keyboard_key(k) by {
        let i = choose|i: int| 0 <= i < r.len() && r[i] == k;
        assert(is_keyboard_key(r[i]));
    }
    r
}

/// The buttons the virtual mouse declares: left, right and middle.
pub fn mouse_button_codes() -> (r: Vec<u16>)
    ensures
        r@ == seq![BTN_LEFT, BTN_RIGHT, BTN_MIDDLE],
{
    vec![BTN_LEFT, BTN_RIGHT, BTN_MIDDLE]
}

/// The relative axes the virtual mouse declares: horizontal, vertical and wheel.
pub fn mouse_axis_codes() -> (r: Vec<u16>)
    ensures
        r@ == seq![REL_X, REL_Y, REL_WHEEL],
{
    vec![REL_X, REL_Y, REL_WHEEL]
}

} // verus!
