//! The PS/2 "Set 1" scancode table for a US QWERTY layout.

use vstd::prelude::*;

verus! {

/// Keys that do not stand for a printable character.
#[derive(Clone, Copy, Debug, PartialEq, Eq, Structural)]
pub enum NamedKey {
    Escape,
    Backspace,
    Tab,
    Enter,
    Control,
    Shift,
    Alt,
    CapsLock,
    NumLock,
    ScrollLock,
    F1,
    F2,
    F3,
    F4,
    F5,
    F6,
    F7,
    F8,
    F9,
    F10,
    F11,
    F12,
    ArrowUp,
    ArrowDown,
    ArrowLeft,
    ArrowRight,
    Home,
    End,
    PageUp,
    PageDown,
    Delete,
    Insert,
}

/// The character pair (unshifted, shifted) printed on the key with this code.
pub open spec fn char_pair(code: u8) -> Option<(char, char)> {
    match code {
        0x02u8 => Some(('1', '!')),
        0x03u8 => Some(('2', '@')),
        0x04u8 => Some(('3', '#')),
        0x05u8 => Some(('4', '$')),
        0x06u8 => Some(('5', '%')),
        0x07u8 => Some(('6', '^')),
        0x08u8 => Some(('7', '&')),
        0x09u8 => Some(('8', '*')),
        0x0Au8 => Some(('9', '(')),
        0x0Bu8 => Some(('0', ')')),
        0x0Cu8 => Some(('-', '_')),
        0x0Du8 => Some(('=', '+')),
        0x0Eu8 => Some(('\x08', '\x08')),
        0x0Fu8 => Some(('\t', '\t')),
        0x10u8 => Some(('q', 'Q')),
        0x11u8 => Some(('w', 'W')),
        0x12u8 => Some(('e', 'E')),
        0x13u8 => Some(('r', 'R')),
        0x14u8 => Some(('t', 'T')),
        0x15u8 => Some(('y', 'Y')),
        0x16u8 => Some(('u', 'U')),
        0x17u8 => Some(('i', 'I')),
        0x18u8 => Some(('o', 'O')),
        0x19u8 => Some(('p', 'P')),
        0x1Au8 => Some(('[', '{')),
        0x1Bu8 => Some((']', '}')),
        0x1Cu8 => Some(('\n', '\n')),
        0x1Eu8 => Some(('a', 'A')),
        0x1Fu8 => Some(('s', 'S')),
        0x20u8 => Some(('d', 'D')),
        0x21u8 => Some(('f', 'F')),
        0x22u8 => Some(('g', 'G')),
        0x23u8 => Some(('h', 'H')),
        0x24u8 => Some(('j', 'J')),
        0x25u8 => Some(('k', 'K')),
        0x26u8 => Some(('l', 'L')),
        0x27u8 => Some((';', ':')),
        0x28u8 => Some(('\'', '"')),
        0x29u8 => Some(('`', '~')),
        0x2Bu8 => Some(('\\', '|')),
        0x2Cu8 => Some(('z', 'Z')),
        0x2Du8 => Some(('x', 'X')),
        0x2Eu8 => Some(('c', 'C')),
        0x2Fu8 => Some(('v', 'V')),
        0x30u8 => Some(('b', 'B')),
        0x31u8 => Some(('n', 'N')),
        0x32u8 => Some(('m', 'M')),
        0x33u8 => Some((',', '<')),
        0x34u8 => Some(('.', '>')),
        0x35u8 => Some(('/', '?')),
        0x37u8 => Some(('*', '*')),
        0x39u8 => Some((' ', ' ')),
        0x4Au8 => Some(('-', '-')),
        0x4Eu8 => Some(('+', '+')),
        _ => None,
    }
}

/// The character that a key prints without Shift.
pub open spec fn base_char_spec(code: u8) -> Option<char> {
    match char_pair(code) {
        Some(p) => Some(p.0),
        None => None,
    }
}

/// The character that a key prints with Shift held.
pub open spec fn shifted_char_spec(code: u8) -> Option<char> {
    match char_pair(code) {
        Some(p) => Some(p.1),
        None => None,
    }
}

pub open spec fn is_lower_letter(c: char) -> bool {
    'a' <= c && c <= 'z'
}

/// A key of the alphabetic block, whose case Caps Lock also inverts.
pub open spec fn is_letter_code(code: u8) -> bool {
    match char_pair(code) {
        Some(p) => is_lower_letter(p.0),
        None => false,
    }
}

fn char_pair_of(code: u8) -> (r: Option<(char, char)>)
    ensures
        r == char_pair(code),
{
    match code {
        0x02u8 => Some(('1', '!')),
        0x03u8 => Some(('2', '@')),
        0x04u8 => Some(('3', '#')),
        0x05u8 => Some(('4', '$')),
        0x06u8 => Some(('5', '%')),
        0x07u8 => Some(('6', '^')),
        0x08u8 => Some(('7', '&')),
        0x09u8 => Some(('8', '*')),
        0x0Au8 => Some(('9', '(')),
        0x0Bu8 => Some(('0', ')')),
        0x0Cu8 => Some(('-', '_')),
        0x0Du8 => Some(('=', '+')),
        0x0Eu8 => Some(('\x08', '\x08')),
        0x0Fu8 => Some(('\t', '\t')),
        0x10u8 => Some(('q', 'Q')),
        0x11u8 => Some(('w', 'W')),
        0x12u8 => Some(('e', 'E')),
        0x13u8 => Some(('r', 'R')),
        0x14u8 => Some(('t', 'T')),
        0x15u8 => Some(('y', 'Y')),
        0x16u8 => Some(('u', 'U')),
        0x17u8 => Some(('i', 'I')),
        0x18u8 => Some(('o', 'O')),
        0x19u8 => Some(('p', 'P')),
        0x1Au8 => Some(('[', '{')),
        0x1Bu8 => Some((']', '}')),
        0x1Cu8 => Some(('\n', '\n')),
        0x1Eu8 => Some(('a', 'A')),
        0x1Fu8 => Some(('s', 'S')),
        0x20u8 => Some(('d', 'D')),
        0x21u8 => Some(('f', 'F')),
        0x22u8 => Some(('g', 'G')),
        0x23u8 => Some(('h', 'H')),
        0x24u8 => Some(('j', 'J')),
        0x25u8 => Some(('k', 'K')),
        0x26u8 => Some(('l', 'L')),
        0x27u8 => Some((';', ':')),
        0x28u8 => Some(('\'', '"')),
        0x29u8 => Some(('`', '~')),
        0x2Bu8 => Some(('\\', '|')),
        0x2Cu8 => Some(('z', 'Z')),
        0x2Du8 => Some(('x', 'X')),
        0x2Eu8 => Some(('c', 'C')),
        0x2Fu8 => Some(('v', 'V')),
        0x30u8 => Some(('b', 'B')),
        0x31u8 => Some(('n', 'N')),
        0x32u8 => Some(('m', 'M')),
        0x33u8 => Some((',', '<')),
        0x34u8 => Some(('.', '>')),
        0x35u8 => Some(('/', '?')),
        0x37u8 => Some(('*', '*')),
        0x39u8 => Some((' ', ' ')),
        0x4Au8 => Some(('-', '-')),
        0x4Eu8 => Some(('+', '+')),
        _ => None,
    }
}

/// The character that the key with this code prints without Shift, if any.
pub fn base_char(code: u8) -> (r: Option<char>)
    ensures
        r == base_char_spec(code),
{
    match char_pair_of(code) {
        Some(p) => Some(p.0),
        None => None,
    }
}

/// The character that the key with this code prints with Shift held, if any.
pub fn shifted_char(code: u8) -> (r: Option<char>)
    ensures
        r == shifted_char_spec(code),
{
    match char_pair_of(code) {
        Some(p) => Some(p.1),
        None => None,
    }
}

/// The named key for a code, where `extended` says that an 0xE0 prefix came
/// just before it.
pub open spec fn named_key_spec(code: u8, extended: bool) -> Option<NamedKey> {
    match code {
        0x01u8 => if extended { None } else { Some(NamedKey::Escape) },
        0x0Eu8 => if extended { None } else { Some(NamedKey::Backspace) },
        0x0Fu8 => if extended { None } else { Some(NamedKey::Tab) },
        0x1Cu8 => Some(NamedKey::Enter),
        0x3Bu8 => if extended { None } else { Some(NamedKey::F1) },
        0x3Cu8 => if extended { None } else { Some(NamedKey::F2) },
        0x3Du8 => if extended { None } else { Some(NamedKey::F3) },
        0x3Eu8 => if extended { None } else { Some(NamedKey::F4) },
        0x3Fu8 => if extended { None } else { Some(NamedKey::F5) },
        0x40u8 => if extended { None } else { Some(NamedKey::F6) },
        0x41u8 => if extended { None } else { Some(NamedKey::F7) },
        0x42u8 => if extended { None } else { Some(NamedKey::F8) },
        0x43u8 => if extended { None } else { Some(NamedKey::F9) },
        0x44u8 => if extended { None } else { Some(NamedKey::F10) },
        0x57u8 => if extended { None } else { Some(NamedKey::F11) },
        0x58u8 => if extended { None } else { Some(NamedKey::F12) },
        0x47u8 => Some(NamedKey::Home),
        0x48u8 => Some(NamedKey::ArrowUp),
        0x49u8 => Some(NamedKey::PageUp),
        0x4Bu8 => Some(NamedKey::ArrowLeft),
        0x4Du8 => Some(NamedKey::ArrowRight),
        0x4Fu8 => Some(NamedKey::End),
        0x50u8 => Some(NamedKey::ArrowDown),
        0x51u8 => Some(NamedKey::PageDown),
        0x52u8 => Some(NamedKey::Insert),
        0x53u8 => Some(NamedKey::Delete),
        _ => None,
    }
}

/// The digit or point that a numeric keypad key types while Num Lock is on.
pub open spec fn keypad_char_spec(code: u8) -> Option<char> {
    match code {
        0x47u8 => Some('7'),
        0x48u8 => Some('8'),
        0x49u8 => Some('9'),
        0x4Bu8 => Some('4'),
        0x4Cu8 => Some('5'),
        0x4Du8 => Some('6'),
        0x4Fu8 => Some('1'),
        0x50u8 => Some('2'),
        0x51u8 => Some('3'),
        0x52u8 => Some('0'),
        0x53u8 => Some('.'),
        _ => None,
    }
}

/// The named key for a code, where `extended` says that an 0xE0 prefix came
/// just before it.
pub fn named_key(code: u8, extended: bool) -> (r: Option<NamedKey>)
    ensures
        r == named_key_spec(code, extended),
{
    match code {
        0x01u8 => if extended { None } else { Some(NamedKey::Escape) },
        0x0Eu8 => if extended { None } else { Some(NamedKey::Backspace) },
        0x0Fu8 => if extended { None } else { Some(NamedKey::Tab) },
        0x1Cu8 => Some(NamedKey::Enter),
        0x3Bu8 => if extended { None } else { Some(NamedKey::F1) },
        0x3Cu8 => if extended { None } else { Some(NamedKey::F2) },
        0x3Du8 => if extended { None } else { Some(NamedKey::F3) },
        0x3Eu8 => if extended { None } else { Some(NamedKey::F4) },
        0x3Fu8 => if extended { None } else { Some(NamedKey::F5) },
        0x40u8 => if extended { None } else { Some(NamedKey::F6) },
        0x41u8 => if extended { None } else { Some(NamedKey::F7) },
        0x42u8 => if extended { None } else { Some(NamedKey::F8) },
        0x43u8 => if extended { None } else { Some(NamedKey::F9) },
        0x44u8 => if extended { None } else { Some(NamedKey::F10) },
        0x57u8 => if extended { None } else { Some(NamedKey::F11) },
        0x58u8 => if extended { None } else { Some(NamedKey::F12) },
        0x47u8 => Some(NamedKey::Home),
        0x48u8 => Some(NamedKey::ArrowUp),
        0x49u8 => Some(NamedKey::PageUp),
        0x4Bu8 => Some(NamedKey::ArrowLeft),
        0x4Du8 => Some(NamedKey::ArrowRight),
        0x4Fu8 => Some(NamedKey::End),
        0x50u8 => Some(NamedKey::ArrowDown),
        0x51u8 => Some(NamedKey::PageDown),
        0x52u8 => Some(NamedKey::Insert),
        0x53u8 => Some(NamedKey::Delete),
        _ => None,
    }
}

/// The digit or point that a numeric keypad key types while Num Lock is on.
pub fn keypad_char(code: u8) -> (r: Option<char>)
    ensures
        r == keypad_char_spec(code),
{
    match code {
        0x47u8 => Some('7'),
        0x48u8 => Some('8'),
        0x49u8 => Some('9'),
        0x4Bu8 => Some('4'),
        0x4Cu8 => Some('5'),
        0x4Du8 => Some('6'),
        0x4Fu8 => Some('1'),
        0x50u8 => Some('2'),
        0x51u8 => Some('3'),
        0x52u8 => Some('0'),
        0x53u8 => Some('.'),
        _ => None,
    }
}

/// The character typed by a key of the main block: Shift selects the shifted
/// form, and for letters Caps Lock inverts that choice.
pub open spec fn typed_char_spec(code: u8, shift: bool, caps_lock: bool) -> Option<char> {
    match char_pair(code) {
        Some(p) => {
            let upper = if is_lower_letter(p.0) { shift != caps_lock } else { shift };
            Some(if upper { p.1 } else { p.0 })
        },
        None => None,
    }
}

/// The character typed by a key of the main block under the given Shift and
/// Caps Lock states.
pub fn typed_char(code: u8, shift: bool, caps_lock: bool) -> (r: Option<char>)
    ensures
        r == typed_char_spec(code, shift, caps_lock),
{
    match char_pair_of(code) {
        Some(p) => {
            let upper = if 'a' <= p.0 && p.0 <= 'z' { shift != caps_lock } else { shift };
            Some(if upper { p.1 } else { p.0 })
        },
        None => None,
    }
}

} // verus!
