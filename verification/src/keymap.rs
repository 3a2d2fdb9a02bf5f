//! Mapping from physical key codes to the printable characters they
//! produce, together with the classification of the few key codes that
//! have control meaning for the match buffer.
//!
//! Key codes follow the Linux input event code numbering that the
//! keyboard devices report.
use vstd::prelude::*;

verus! {

pub const KEY_ESC: u16 = 1;
pub const KEY_1: u16 = 2;
pub const KEY_2: u16 = 3;
pub const KEY_3: u16 = 4;
pub const KEY_4: u16 = 5;
pub const KEY_5: u16 = 6;
pub const KEY_6: u16 = 7;
pub const KEY_7: u16 = 8;
pub const KEY_8: u16 = 9;
pub const KEY_9: u16 = 10;
pub const KEY_0: u16 = 11;
pub const KEY_MINUS: u16 = 12;
pub const KEY_EQUAL: u16 = 13;
pub const KEY_BACKSPACE: u16 = 14;
pub const KEY_TAB: u16 = 15;
pub const KEY_Q: u16 = 16;
pub const KEY_W: u16 = 17;
pub const KEY_E: u16 = 18;
pub const KEY_R: u16 = 19;
pub const KEY_T: u16 = 20;
pub const KEY_Y: u16 = 21;
pub const KEY_U: u16 = 22;
pub const KEY_I: u16 = 23;
pub const KEY_O: u16 = 24;
pub const KEY_P: u16 = 25;
pub const KEY_LEFTBRACE: u16 = 26;
pub const KEY_RIGHTBRACE: u16 = 27;
pub const KEY_ENTER: u16 = 28;
pub const KEY_A: u16 = 30;
pub const KEY_S: u16 = 31;
pub const KEY_D: u16 = 32;
pub const KEY_F: u16 = 33;
pub const KEY_G: u16 = 34;
pub const KEY_H: u16 = 35;
pub const KEY_J: u16 = 36;
pub const KEY_K: u16 = 37;
pub const KEY_L: u16 = 38;
pub const KEY_SEMICOLON: u16 = 39;
pub const KEY_APOSTROPHE: u16 = 40;
pub const KEY_GRAVE: u16 = 41;
pub const KEY_LEFTSHIFT: u16 = 42;
pub const KEY_BACKSLASH: u16 = 43;
pub const KEY_Z: u16 = 44;
pub const KEY_X: u16 = 45;
pub const KEY_C: u16 = 46;
pub const KEY_V: u16 = 47;
pub const KEY_B: u16 = 48;
pub const KEY_N: u16 = 49;
pub const KEY_M: u16 = 50;
pub const KEY_COMMA: u16 = 51;
pub const KEY_DOT: u16 = 52;
pub const KEY_SLASH: u16 = 53;
pub const KEY_RIGHTSHIFT: u16 = 54;
pub const KEY_SPACE: u16 = 57;

/// A left or right shift key: the only keys that drive the shift state.
pub open spec fn is_shift_key(code: u16) -> bool {
    code == KEY_LEFTSHIFT || code == KEY_RIGHTSHIFT
}

/// Enter, Tab and Escape mark an editing context boundary: they clear
/// the match buffer.
pub open spec fn is_reset_key(code: u16) -> bool {
    code == KEY_ENTER || code == KEY_TAB || code == KEY_ESC
}

/// The printable character a key code produces under the given shift
/// state, or `None` for key codes outside the supported domain.
pub open spec fn char_for(code: u16, shift: bool) -> Option<char> {
    if code == KEY_A { Some(if shift { 'A' } else { 'a' }) }
    else if code == KEY_B { Some(if shift { 'B' } else { 'b' }) }
    else if code == KEY_C { Some(if shift { 'C' } else { 'c' }) }
    else if code == KEY_D { Some(if shift { 'D' } else { 'd' }) }
    else if code == KEY_E { Some(if shift { 'E' } else { 'e' }) }
    else if code == KEY_F { Some(if shift { 'F' } else { 'f' }) }
    else if code == KEY_G { Some(if shift { 'G' } else { 'g' }) }
    else if code == KEY_H { Some(if shift { 'H' } else { 'h' }) }
    else if code == KEY_I { Some(if shift { 'I' } else { 'i' }) }
    else if code == KEY_J { Some(if shift { 'J' } else { 'j' }) }
    else if code == KEY_K { Some(if shift { 'K' } else { 'k' }) }
    else if code == KEY_L { Some(if shift { 'L' } else { 'l' }) }
    else if code == KEY_M { Some(if shift { 'M' } else { 'm' }) }
    else if code == KEY_N { Some(if shift { 'N' } else { 'n' }) }
    else if code == KEY_O { Some(if shift { 'O' } else { 'o' }) }
    else if code == KEY_P { Some(if shift { 'P' } else { 'p' }) }
    else if code == KEY_Q { Some(if shift { 'Q' } else { 'q' }) }
    else if code == KEY_R { Some(if shift { 'R' } else { 'r' }) }
    else if code == KEY_S { Some(if shift { 'S' } else { 's' }) }
    else if code == KEY_T { Some(if shift { 'T' } else { 't' }) }
    else if code == KEY_U { Some(if shift { 'U' } else { 'u' }) }
    else if code == KEY_V { Some(if shift { 'V' } else { 'v' }) }
    else if code == KEY_W { Some(if shift { 'W' } else { 'w' }) }
    else if code == KEY_X { Some(if shift { 'X' } else { 'x' }) }
    else if code == KEY_Y { Some(if shift { 'Y' } else { 'y' }) }
    else if code == KEY_Z { Some(if shift { 'Z' } else { 'z' }) }
    else if code == KEY_1 { Some(if shift { '!' } else { '1' }) }
    else if code == KEY_2 { Some(if shift { '@' } else { '2' }) }
    else if code == KEY_3 { Some(if shift { '#' } else { '3' }) }
    else if code == KEY_4 { Some(if shift { '$' } else { '4' }) }
    else if code == KEY_5 { Some(if shift { '%' } else { '5' }) }
    else if code == KEY_6 { Some(if shift { '^' } else { '6' }) }
    else if code == KEY_7 { Some(if shift { '&' } else { '7' }) }
    else if code == KEY_8 { Some(if shift { '*' } else { '8' }) }
    else if code == KEY_9 { Some(if shift { '(' } else { '9' }) }
    else if code == KEY_0 { Some(if shift { ')' } else { '0' }) }
    else if code == KEY_MINUS { Some(if shift { '_' } else { '-' }) }
    else if code == KEY_EQUAL { Some(if shift { '+' } else { '=' }) }
    else if code == KEY_LEFTBRACE { Some(if shift { '{' } else { '[' }) }
    else if code == KEY_RIGHTBRACE { Some(if shift { '}' } else { ']' }) }
    else if code == KEY_SEMICOLON { Some(if shift { ':' } else { ';' }) }
    else if code == KEY_APOSTROPHE { Some(if shift { '"' } else { '\'' }) }
    else if code == KEY_GRAVE { Some(if shift { '~' } else { '`' }) }
    else if code == KEY_BACKSLASH { Some(if shift { '|' } else { '\\' }) }
    else if code == KEY_COMMA { Some(if shift { '<' } else { ',' }) }
    else if code == KEY_DOT { Some(if shift { '>' } else { '.' }) }
    else if code == KEY_SLASH { Some(if shift { '?' } else { '/' }) }
    else if code == KEY_SPACE { Some(' ') }
    else { None }
}

/// Executable form of [`char_for`]: the printable character produced by
/// a key press, taking the current shift state into account.
pub fn key_to_char(code: u16, shift: bool) -> (r: Option<char>)
    ensures
        r == char_for(code, shift),
{
    if code == KEY_A { Some(if shift { 'A' } else { 'a' }) }
    else if code == KEY_B { Some(if shift { 'B' } else { 'b' }) }
    else if code == KEY_C { Some(if shift { 'C' } else { 'c' }) }
    else if code == KEY_D { Some(if shift { 'D' } else { 'd' }) }
    else if code == KEY_E { Some(if shift { 'E' } else { 'e' }) }
    else if code == KEY_F { Some(if shift { 'F' } else { 'f' }) }
    else if code == KEY_G { Some(if shift { 'G' } else { 'g' }) }
    else if code == KEY_H { Some(if shift { 'H' } else { 'h' }) }
    else if code == KEY_I { Some(if shift { 'I' } else { 'i' }) }
    else if code == KEY_J { Some(if shift { 'J' } else { 'j' }) }
    else if code == KEY_K { Some(if shift { 'K' } else { 'k' }) }
    else if code == KEY_L { Some(if shift { 'L' } else { 'l' }) }
    else if code == KEY_M { Some(if shift { 'M' } else { 'm' }) }
    else if code == KEY_N { Some(if shift { 'N' } else { 'n' }) }
    else if code == KEY_O { Some(if shift { 'O' } else { 'o' }) }
    else if code == KEY_P { Some(if shift { 'P' } else { 'p' }) }
    else if code == KEY_Q { Some(if shift { 'Q' } else { 'q' }) }
    else if code == KEY_R { Some(if shift { 'R' } else { 'r' }) }
    else if code == KEY_S { Some(if shift { 'S' } else { 's' }) }
    else if code == KEY_T { Some(if shift { 'T' } else { 't' }) }
    else if code == KEY_U { Some(if shift { 'U' } else { 'u' }) }
    else if code == KEY_V { Some(if shift { 'V' } else { 'v' }) }
    else if code == KEY_W { Some(if shift { 'W' } else { 'w' }) }
    else if code == KEY_X { Some(if shift { 'X' } else { 'x' }) }
    else if code == KEY_Y { Some(if shift { 'Y' } else { 'y' }) }
    else if code == KEY_Z { Some(if shift { 'Z' } else { 'z' }) }
    else if code == KEY_1 { Some(if shift { '!' } else { '1' }) }
    else if code == KEY_2 { Some(if shift { '@' } else { '2' }) }
    else if code == KEY_3 { Some(if shift { '#' } else { '3' }) }
    else if code == KEY_4 { Some(if shift { '$' } else { '4' }) }
    else if code == KEY_5 { Some(if shift { '%' } else { '5' }) }
    else if code == KEY_6 { Some(if shift { '^' } else { '6' }) }
    else if code == KEY_7 { Some(if shift { '&' } else { '7' }) }
    else if code == KEY_8 { Some(if shift { '*' } else { '8' }) }
    else if code == KEY_9 { Some(if shift { '(' } else { '9' }) }
    else if code == KEY_0 { Some(if shift { ')' } else { '0' }) }
    else if code == KEY_MINUS { Some(if shift { '_' } else { '-' }) }
    else if code == KEY_EQUAL { Some(if shift { '+' } else { '=' }) }
    else if code == KEY_LEFTBRACE { Some(if shift { '{' } else { '[' }) }
    else if code == KEY_RIGHTBRACE { Some(if shift { '}' } else { ']' }) }
    else if code == KEY_SEMICOLON { Some(if shift { ':' } else { ';' }) }
    else if code == KEY_APOSTROPHE { Some(if shift { '"' } else { '\'' }) }
    else if code == KEY_GRAVE { Some(if shift { '~' } else { '`' }) }
    else if code == KEY_BACKSLASH { Some(if shift { '|' } else { '\\' }) }
    else if code == KEY_COMMA { Some(if shift { '<' } else { ',' }) }
    else if code == KEY_DOT { Some(if shift { '>' } else { '.' }) }
    else if code == KEY_SLASH { Some(if shift { '?' } else { '/' }) }
    else if code == KEY_SPACE { Some(' ') }
    else { None }
}

/// Executable form of [`is_shift_key`].
pub fn shift_key(code: u16) -> (r: bool)
    ensures
        r == is_shift_key(code),
{
    code == KEY_LEFTSHIFT || code == KEY_RIGHTSHIFT
}

/// Executable form of [`is_reset_key`].
pub fn reset_key(code: u16) -> (r: bool)
    ensures
        r == is_reset_key(code),
{
    code == KEY_ENTER || code == KEY_TAB || code == KEY_ESC
}

} // verus!
