//! The table from the key names that `xdotool` understands to the key codes
//! of the virtual keyboard.

use vstd::prelude::*;
use crate::keycodes::{
    is_keyboard_key, KEY_0, KEY_1, KEY_2, KEY_3, KEY_4, KEY_5, KEY_6, KEY_7, KEY_8, KEY_9, KEY_A, KEY_APOSTROPHE, KEY_B, KEY_BACKSLASH, KEY_BACKSPACE, KEY_C, KEY_CAPSLOCK, KEY_COMMA, KEY_D, KEY_DELETE, KEY_DOT, KEY_DOWN, KEY_E, KEY_END, KEY_ENTER, KEY_EQUAL, KEY_ESC, KEY_F, KEY_F1, KEY_F10, KEY_F11, KEY_F12, KEY_F2, KEY_F3, KEY_F4, KEY_F5, KEY_F6, KEY_F7, KEY_F8, KEY_F9, KEY_G, KEY_GRAVE, KEY_H, KEY_HOME, KEY_I, KEY_INSERT, KEY_J, KEY_K, KEY_L, KEY_LEFT, KEY_LEFTALT, KEY_LEFTBRACE, KEY_LEFTCTRL, KEY_LEFTMETA, KEY_LEFTSHIFT, KEY_M, KEY_MINUS, KEY_N, KEY_O, KEY_P, KEY_PAGEDOWN, KEY_PAGEUP, KEY_Q, KEY_R, KEY_RIGHT, KEY_RIGHTBRACE, KEY_S, KEY_SEMICOLON, KEY_SLASH, KEY_SPACE, KEY_T, KEY_TAB, KEY_U, KEY_UP, KEY_V, KEY_W, KEY_X, KEY_Y, KEY_Z,
};
use crate::text::str_equals;

verus! {

/// The key code that a key name stands for, where the table knows the name.
pub open spec fn key_for_name(name: Seq<char>) -> Option<u16> {
    if name == "a"@ {
        Some(KEY_A)
    } else if name == "b"@ {
        Some(KEY_B)
    } else if name == "c"@ {
        Some(KEY_C)
    } else if name == "d"@ {
        Some(KEY_D)
    } else if name == "e"@ {
        Some(KEY_E)
    } else if name == "f"@ {
        Some(KEY_F)
    } else if name == "g"@ {
        Some(KEY_G)
    } else if name == "h"@ {
        Some(KEY_H)
    } else if name == "i"@ {
        Some(KEY_I)
    } else if name == "j"@ {
        Some(KEY_J)
    } else if name == "k"@ {
        Some(KEY_K)
    } else if name == "l"@ {
        Some(KEY_L)
    } else if name == "m"@ {
        Some(KEY_M)
    } else if name == "n"@ {
        Some(KEY_N)
    } else if name == "o"@ {
        Some(KEY_O)
    } else if name == "p"@ {
        Some(KEY_P)
    } else if name == "q"@ {
        Some(KEY_Q)
    } else if name == "r"@ {
        Some(KEY_R)
    } else if name == "s"@ {
        Some(KEY_S)
    } else if name == "t"@ {
        Some(KEY_T)
    } else if name == "u"@ {
        Some(KEY_U)
    } else if name == "v"@ {
        Some(KEY_V)
    } else if name == "w"@ {
        Some(KEY_W)
    } else if name == "x"@ {
        Some(KEY_X)
    } else if name == "y"@ {
        Some(KEY_Y)
    } else if name == "z"@ {
        Some(KEY_Z)
    } else if name == "0"@ {
        Some(KEY_0)
    } else if name == "1"@ {
        Some(KEY_1)
    } else if name == "2"@ {
        Some(KEY_2)
    } else if name == "3"@ {
        Some(KEY_3)
    } else if name == "4"@ {
        Some(KEY_4)
    } else if name == "5"@ {
        Some(KEY_5)
    } else if name == "6"@ {
        Some(KEY_6)
    } else if name == "7"@ {
        Some(KEY_7)
    } else if name == "8"@ {
        Some(KEY_8)
    } else if name == "9"@ {
        Some(KEY_9)
    } else if name == "Return"@ {
        Some(KEY_ENTER)
    } else if name == "BackSpace"@ {
        Some(KEY_BACKSPACE)
    } else if name == "Tab"@ {
        Some(KEY_TAB)
    } else if name == "space"@ {
        Some(KEY_SPACE)
    } else if name == "Delete"@ {
        Some(KEY_DELETE)
    } else if name == "Insert"@ {
        Some(KEY_INSERT)
    } else if name == "Home"@ {
        Some(KEY_HOME)
    } else if name == "End"@ {
        Some(KEY_END)
    } else if name == "Prior"@ {
        Some(KEY_PAGEUP)
    } else if name == "Next"@ {
        Some(KEY_PAGEDOWN)
    } else if name == "Up"@ {
        Some(KEY_UP)
    } else if name == "Down"@ {
        Some(KEY_DOWN)
    } else if name == "Left"@ {
        Some(KEY_LEFT)
    } else if name == "Right"@ {
        Some(KEY_RIGHT)
    } else if name == "F1"@ {
        Some(KEY_F1)
    } else if name == "F2"@ {
        Some(KEY_F2)
    } else if name == "F3"@ {
        Some(KEY_F3)
    } else if name == "F4"@ {
        Some(KEY_F4)
    } else if name == "F5"@ {
        Some(KEY_F5)
    } else if name == "F6"@ {
        Some(KEY_F6)
    } else if name == "F7"@ {
        Some(KEY_F7)
    } else if name == "F8"@ {
        Some(KEY_F8)
    } else if name == "F9"@ {
        Some(KEY_F9)
    } else if name == "F10"@ {
        Some(KEY_F10)
    } else if name == "F11"@ {
        Some(KEY_F11)
    } else if name == "F12"@ {
        Some(KEY_F12)
    } else if name == "shift"@ {
        Some(KEY_LEFTSHIFT)
    } else if name == "ctrl"@ {
        Some(KEY_LEFTCTRL)
    } else if name == "alt"@ {
        Some(KEY_LEFTALT)
    } else if name == "super"@ {
        Some(KEY_LEFTMETA)
    } else if name == "Caps_Lock"@ {
        Some(KEY_CAPSLOCK)
    } else if name == "Escape"@ {
        Some(KEY_ESC)
    } else if name == "comma"@ {
        Some(KEY_COMMA)
    } else if name == "period"@ {
        Some(KEY_DOT)
    } else if name == "semicolon"@ {
        Some(KEY_SEMICOLON)
    } else if name == "apostrophe"@ {
        Some(KEY_APOSTROPHE)
    } else if name == "bracketleft"@ {
        Some(KEY_LEFTBRACE)
    } else if name == "bracketright"@ {
        Some(KEY_RIGHTBRACE)
    } else if name == "backslash"@ {
        Some(KEY_BACKSLASH)
    } else if name == "slash"@ {
        Some(KEY_SLASH)
    } else if name == "minus"@ {
        Some(KEY_MINUS)
    } else if name == "equal"@ {
        Some(KEY_EQUAL)
    } else if name == "grave"@ {
        Some(KEY_GRAVE)
    } else {
        None
    }
}

/// The name under which the table lists a key code.
pub open spec fn name_for_key(code: u16) -> Seq<char> {
    if code == KEY_A {
        "a"@
    } else if code == KEY_B {
        "b"@
    } else if code == KEY_C {
        "c"@
    } else if code == KEY_D {
        "d"@
    } else if code == KEY_E {
        "e"@
    } else if code == KEY_F {
        "f"@
    } else if code == KEY_G {
        "g"@
    } else if code == KEY_H {
        "h"@
    } else if code == KEY_I {
        "i"@
    } else if code == KEY_J {
        "j"@
    } else if code == KEY_K {
        "k"@
    } else if code == KEY_L {
        "l"@
    } else if code == KEY_M {
        "m"@
    } else if code == KEY_N {
        "n"@
    } else if code == KEY_O {
        "o"@
    } else if code == KEY_P {
        "p"@
    } else if code == KEY_Q {
        "q"@
    } else if code == KEY_R {
        "r"@
    } else if code == KEY_S {
        "s"@
    } else if code == KEY_T {
        "t"@
    } else if code == KEY_U {
        "u"@
    } else if code == KEY_V {
        "v"@
    } else if code == KEY_W {
        "w"@
    } else if code == KEY_X {
        "x"@
    } else if code == KEY_Y {
        "y"@
    } else if code == KEY_Z {
        "z"@
    } else if code == KEY_0 {
        "0"@
    } else if code == KEY_1 {
        "1"@
    } else if code == KEY_2 {
        "2"@
    } else if code == KEY_3 {
        "3"@
    } else if code == KEY_4 {
        "4"@
    } else if code == KEY_5 {
        "5"@
    } else if code == KEY_6 {
        "6"@
    } else if code == KEY_7 {
        "7"@
    } else if code == KEY_8 {
        "8"@
    } else if code == KEY_9 {
        "9"@
    } else if code == KEY_ENTER {
        "Return"@
    } else if code == KEY_BACKSPACE {
        "BackSpace"@
    } else if code == KEY_TAB {
        "Tab"@
    } else if code == KEY_SPACE {
        "space"@
    } else if code == KEY_DELETE {
        "Delete"@
    } else if code == KEY_INSERT {
        "Insert"@
    } else if code == KEY_HOME {
        "Home"@
    } else if code == KEY_END {
        "End"@
    } else if code == KEY_PAGEUP {
        "Prior"@
    } else if code == KEY_PAGEDOWN {
        "Next"@
    } else if code == KEY_UP {
        "Up"@
    } else if code == KEY_DOWN {
        "Down"@
    } else if code == KEY_LEFT {
        "Left"@
    } else if code == KEY_RIGHT {
        "Right"@
    } else if code == KEY_F1 {
        "F1"@
    } else if code == KEY_F2 {
        "F2"@
    } else if code == KEY_F3 {
        "F3"@
    } else if code == KEY_F4 {
        "F4"@
    } else if code == KEY_F5 {
        "F5"@
    } else if code == KEY_F6 {
        "F6"@
    } else if code == KEY_F7 {
        "F7"@
    } else if code == KEY_F8 {
        "F8"@
    } else if code == KEY_F9 {
        "F9"@
    } else if code == KEY_F10 {
        "F10"@
    } else if code == KEY_F11 {
        "F11"@
    } else if code == KEY_F12 {
        "F12"@
    } else if code == KEY_LEFTSHIFT {
        "shift"@
    } else if code == KEY_LEFTCTRL {
        "ctrl"@
    } else if code == KEY_LEFTALT {
        "alt"@
    } else if code == KEY_LEFTMETA {
        "super"@
    } else if code == KEY_CAPSLOCK {
        "Caps_Lock"@
    } else if code == KEY_ESC {
        "Escape"@
    } else if code == KEY_COMMA {
        "comma"@
    } else if code == KEY_DOT {
        "period"@
    } else if code == KEY_SEMICOLON {
        "semicolon"@
    } else if code == KEY_APOSTROPHE {
        "apostrophe"@
    } else if code == KEY_LEFTBRACE {
        "bracketleft"@
    } else if code == KEY_RIGHTBRACE {
        "bracketright"@
    } else if code == KEY_BACKSLASH {
        "backslash"@
    } else if code == KEY_SLASH {
        "slash"@
    } else if code == KEY_MINUS {
        "minus"@
    } else if code == KEY_EQUAL {
        "equal"@
    } else if code == KEY_GRAVE {
        "grave"@
    } else {
        Seq::empty()
    }
}

/// Looks a key name up in the table: the letters, the digits, the editing and
/// navigation keys, the function keys, the left-hand modifiers and the
/// punctuation keys, each under its `xdotool` name.
pub fn xdotool_name_to_evdev(name: &str) -> (r: Option<u16>)
    ensures
        r == key_for_name(name@),
{
    if str_equals(name, "a") {
        Some(KEY_A)
    } else if str_equals(name, "b") {
        Some(KEY_B)
    } else if str_equals(name, "c") {
        Some(KEY_C)
    } else if str_equals(name, "d") {
        Some(KEY_D)
    } else if str_equals(name, "e") {
        Some(KEY_E)
    } else if str_equals(name, "f") {
        Some(KEY_F)
    } else if str_equals(name, "g") {
        Some(KEY_G)
    } else if str_equals(name, "h") {
        Some(KEY_H)
    } else if str_equals(name, "i") {
        Some(KEY_I)
    } else if str_equals(name, "j") {
        Some(KEY_J)
    } else if str_equals(name, "k") {
        Some(KEY_K)
    } else if str_equals(name, "l") {
        Some(KEY_L)
    } else if str_equals(name, "m") {
        Some(KEY_M)
    } else if str_equals(name, "n") {
        Some(KEY_N)
    } else if str_equals(name, "o") {
        Some(KEY_O)
    } else if str_equals(name, "p") {
        Some(KEY_P)
    } else if str_equals(name, "q") {
        Some(KEY_Q)
    } else if str_equals(name, "r") {
        Some(KEY_R)
    } else if str_equals(name, "s") {
        Some(KEY_S)
    } else if str_equals(name, "t") {
        Some(KEY_T)
    } else if str_equals(name, "u") {
        Some(KEY_U)
    } else if str_equals(name, "v") {
        Some(KEY_V)
    } else if str_equals(name, "w") {
        Some(KEY_W)
    } else if str_equals(name, "x") {
        Some(KEY_X)
    } else if str_equals(name, "y") {
        Some(KEY_Y)
    } else if str_equals(name, "z") {
        Some(KEY_Z)
    } else if str_equals(name, "0") {
        Some(KEY_0)
    } else if str_equals(name, "1") {
        Some(KEY_1)
    } else if str_equals(name, "2") {
        Some(KEY_2)
    } else if str_equals(name, "3") {
        Some(KEY_3)
    } else if str_equals(name, "4") {
        Some(KEY_4)
    } else if str_equals(name, "5") {
        Some(KEY_5)
    } else if str_equals(name, "6") {
        Some(KEY_6)
    } else if str_equals(name, "7") {
        Some(KEY_7)
    } else if str_equals(name, "8") {
        Some(KEY_8)
    } else if str_equals(name, "9") {
        Some(KEY_9)
    } else if str_equals(name, "Return") {
        Some(KEY_ENTER)
    } else if str_equals(name, "BackSpace") {
        Some(KEY_BACKSPACE)
    } else if str_equals(name, "Tab") {
        Some(KEY_TAB)
    } else if str_equals(name, "space") {
        Some(KEY_SPACE)
    } else if str_equals(name, "Delete") {
        Some(KEY_DELETE)
    } else if str_equals(name, "Insert") {
        Some(KEY_INSERT)
    } else if str_equals(name, "Home") {
        Some(KEY_HOME)
    } else if str_equals(name, "End") {
        Some(KEY_END)
    } else if str_equals(name, "Prior") {
        Some(KEY_PAGEUP)
    } else if str_equals(name, "Next") {
        Some(KEY_PAGEDOWN)
    } else if str_equals(name, "Up") {
        Some(KEY_UP)
    } else if str_equals(name, "Down") {
        Some(KEY_DOWN)
    } else if str_equals(name, "Left") {
        Some(KEY_LEFT)
    } else if str_equals(name, "Right") {
        Some(KEY_RIGHT)
    } else if str_equals(name, "F1") {
        Some(KEY_F1)
    } else if str_equals(name, "F2") {
        Some(KEY_F2)
    } else if str_equals(name, "F3") {
        Some(KEY_F3)
    } else if str_equals(name, "F4") {
        Some(KEY_F4)
    } else if str_equals(name, "F5") {
        Some(KEY_F5)
    } else if str_equals(name, "F6") {
        Some(KEY_F6)
    } else if str_equals(name, "F7") {
        Some(KEY_F7)
    } else if str_equals(name, "F8") {
        Some(KEY_F8)
    } else if str_equals(name, "F9") {
        Some(KEY_F9)
    } else if str_equals(name, "F10") {
        Some(KEY_F10)
    } else if str_equals(name, "F11") {
        Some(KEY_F11)
    } else if str_equals(name, "F12") {
        Some(KEY_F12)
    } else if str_equals(name, "shift") {
        Some(KEY_LEFTSHIFT)
    } else if str_equals(name, "ctrl") {
        Some(KEY_LEFTCTRL)
    } else if str_equals(name, "alt") {
        Some(KEY_LEFTALT)
    } else if str_equals(name, "super") {
        Some(KEY_LEFTMETA)
    } else if str_equals(name, "Caps_Lock") {
        Some(KEY_CAPSLOCK)
    } else if str_equals(name, "Escape") {
        Some(KEY_ESC)
    } else if str_equals(name, "comma") {
        Some(KEY_COMMA)
    } else if str_equals(name, "period") {
        Some(KEY_DOT)
    } else if str_equals(name, "semicolon") {
        Some(KEY_SEMICOLON)
    } else if str_equals(name, "apostrophe") {
        Some(KEY_APOSTROPHE)
    } else if str_equals(name, "bracketleft") {
        Some(KEY_LEFTBRACE)
    } else if str_equals(name, "bracketright") {
        Some(KEY_RIGHTBRACE)
    } else if str_equals(name, "backslash") {
        Some(KEY_BACKSLASH)
    } else if str_equals(name, "slash") {
        Some(KEY_SLASH)
    } else if str_equals(name, "minus") {
        Some(KEY_MINUS)
    } else if str_equals(name, "equal") {
        Some(KEY_EQUAL)
    } else if str_equals(name, "grave") {
        Some(KEY_GRAVE)
    } else {
        None
    }
}

/// No two names of the table stand for the same key: a key code names the
/// one entry it came from.
pub proof fn lemma_key_names_are_distinct(a: Seq<char>, b: Seq<char>)
    requires
        key_for_name(a) is Some,
        key_for_name(a) == key_for_name(b),
    ensures
        a == b,
{
    lemma_name_for_key_inverts(a);
    lemma_name_for_key_inverts(b);
}

/// The table's name for the key that a name stands for is that name.
pub proof fn lemma_name_for_key_inverts(name: Seq<char>)
    ensures
        key_for_name(name) matches Some(code) ==> name_for_key(code) == name,
{
}

/// Every key that the table yields is one the virtual keyboard declares.
pub proof fn lemma_named_keys_on_keyboard(name: Seq<char>)
    ensures
        key_for_name(name) matches Some(code) ==> is_keyboard_key(code),
{
}

} // verus!
