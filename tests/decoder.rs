use kfs::keyboard::{led_pattern, KeyboardState, LogicalKey};
use kfs::scancode::{base_char, shifted_char, NamedKey};

fn chars(kb: &mut KeyboardState, bytes: &[u8]) -> Vec<LogicalKey> {
    bytes.iter().filter_map(|&b| kb.handle_scancode(b)).map(|e| e.key).collect()
}

#[test]
fn shift_selects_symbol_row() {
    let mut kb = KeyboardState::new();
    assert!(kb.handle_scancode(0x2A).is_none());
    assert!(kb.modifiers.shift);
    let ev = kb.handle_scancode(0x02).unwrap();
    assert_eq!(ev.key, LogicalKey::Character('!'));
    assert!(!ev.is_release);
    assert!(ev.modifiers.shift);
    assert!(kb.handle_scancode(0x82).is_none());
    assert!(kb.handle_scancode(0xAA).is_none());
    assert!(!kb.modifiers.shift);
    assert_eq!(kb.handle_scancode(0x02).unwrap().key, LogicalKey::Character('1'));
}

#[test]
fn caps_lock_toggles_letter_case() {
    let mut kb = KeyboardState::new();
    assert!(kb.handle_scancode(0x3A).is_none());
    assert!(kb.modifiers.caps_lock);
    assert_eq!(kb.take_led_request(), Some(4));
    assert_eq!(kb.handle_scancode(0x1E).unwrap().key, LogicalKey::Character('A'));
    assert!(kb.handle_scancode(0xBA).is_none());
    assert_eq!(kb.take_led_request(), None);
    assert!(kb.handle_scancode(0x3A).is_none());
    assert!(!kb.modifiers.caps_lock);
    assert_eq!(kb.handle_scancode(0x1E).unwrap().key, LogicalKey::Character('a'));
}

#[test]
fn caps_lock_leaves_symbols_alone() {
    let mut kb = KeyboardState::new();
    kb.handle_scancode(0x3A);
    assert_eq!(kb.handle_scancode(0x02).unwrap().key, LogicalKey::Character('1'));
    kb.handle_scancode(0x36);
    assert_eq!(kb.handle_scancode(0x1E).unwrap().key, LogicalKey::Character('a'));
    assert_eq!(kb.handle_scancode(0x0C).unwrap().key, LogicalKey::Character('_'));
}

#[test]
fn modifiers_follow_their_keys() {
    let mut kb = KeyboardState::new();
    kb.handle_scancode(0x1D);
    kb.handle_scancode(0x38);
    assert!(kb.modifiers.ctrl && kb.modifiers.alt);
    kb.handle_scancode(0x1E);
    kb.handle_scancode(0x9E);
    kb.handle_scancode(0x3A);
    assert!(kb.modifiers.ctrl && kb.modifiers.alt);
    kb.handle_scancode(0x9D);
    assert!(!kb.modifiers.ctrl && kb.modifiers.alt);
    kb.handle_scancode(0xB8);
    assert!(!kb.modifiers.alt);
}

#[test]
fn extended_prefix_is_consumed_by_next_byte() {
    let mut kb = KeyboardState::new();
    assert!(kb.handle_scancode(0xE0).is_none());
    assert!(kb.modifiers.extended_pending);
    assert_eq!(
        kb.handle_scancode(0x48).unwrap().key,
        LogicalKey::Named(NamedKey::ArrowUp)
    );
    assert!(!kb.modifiers.extended_pending);
    assert_eq!(kb.handle_scancode(0x35).unwrap().key, LogicalKey::Character('/'));
    kb.handle_scancode(0xE0);
    assert!(kb.handle_scancode(0xC8).is_none());
    assert!(!kb.modifiers.extended_pending);
    kb.handle_scancode(0x2A);
    assert_eq!(kb.handle_scancode(0x35).unwrap().key, LogicalKey::Character('?'));
}

#[test]
fn extended_slash_and_enter() {
    let mut kb = KeyboardState::new();
    kb.handle_scancode(0x2A);
    kb.handle_scancode(0xE0);
    assert_eq!(kb.handle_scancode(0x35).unwrap().key, LogicalKey::Character('/'));
    kb.handle_scancode(0xE0);
    assert_eq!(kb.handle_scancode(0x1C).unwrap().key, LogicalKey::Named(NamedKey::Enter));
}

#[test]
fn release_of_ordinary_key_changes_nothing() {
    let mut kb = KeyboardState::new();
    kb.handle_scancode(0x2A);
    let before = kb.modifiers;
    for raw in [0x9E, 0x81, 0xFF, 0xBA, 0xC5] {
        assert!(kb.handle_scancode(raw).is_none());
        assert_eq!(kb.modifiers, before);
    }
    assert_eq!(kb.take_led_request(), None);
}

#[test]
fn unmapped_codes_give_nothing() {
    let mut kb = KeyboardState::new();
    for raw in [0x00, 0x54, 0x55, 0x56, 0x5A, 0x7F, 0x4C] {
        assert!(kb.handle_scancode(raw).is_none(), "code {raw:#x}");
    }
}

#[test]
fn every_press_reports_iff_mapped() {
    for raw in 0u8..0x80 {
        if [0x2A, 0x36, 0x1D, 0x38, 0x3A, 0x45, 0x46].contains(&raw) {
            continue;
        }
        let mut kb = KeyboardState::new();
        let mapped = base_char(raw).is_some()
            || matches!(raw, 0x01 | 0x3B..=0x44 | 0x57 | 0x58 | 0x47..=0x49 | 0x4B | 0x4D | 0x4F..=0x53);
        assert_eq!(kb.handle_scancode(raw).is_some(), mapped, "code {raw:#x}");
    }
}

#[test]
fn named_keys_resolve() {
    let mut kb = KeyboardState::new();
    let keys = chars(&mut kb, &[0x01, 0x0E, 0x0F, 0x1C, 0x3B, 0x44, 0x57, 0x58]);
    assert_eq!(
        keys,
        vec![
            LogicalKey::Named(NamedKey::Escape),
            LogicalKey::Named(NamedKey::Backspace),
            LogicalKey::Named(NamedKey::Tab),
            LogicalKey::Named(NamedKey::Enter),
            LogicalKey::Named(NamedKey::F1),
            LogicalKey::Named(NamedKey::F10),
            LogicalKey::Named(NamedKey::F11),
            LogicalKey::Named(NamedKey::F12),
        ]
    );
}

#[test]
fn num_lock_turns_keypad_into_digits() {
    let mut kb = KeyboardState::new();
    assert_eq!(kb.handle_scancode(0x47).unwrap().key, LogicalKey::Named(NamedKey::Home));
    kb.handle_scancode(0x45);
    assert_eq!(kb.take_led_request(), Some(2));
    assert_eq!(kb.handle_scancode(0x47).unwrap().key, LogicalKey::Character('7'));
    assert_eq!(kb.handle_scancode(0x4C).unwrap().key, LogicalKey::Character('5'));
    kb.handle_scancode(0xE0);
    assert_eq!(kb.handle_scancode(0x47).unwrap().key, LogicalKey::Named(NamedKey::Home));
}

#[test]
fn led_pattern_packs_lock_bits() {
    let mut kb = KeyboardState::new();
    kb.handle_scancode(0x46);
    assert_eq!(kb.take_led_request(), Some(1));
    kb.handle_scancode(0x45);
    kb.handle_scancode(0x3A);
    assert_eq!(kb.take_led_request(), Some(7));
    assert_eq!(led_pattern(kb.modifiers), 7);
}

#[test]
fn table_covers_layout() {
    assert_eq!(base_char(0x1E), Some('a'));
    assert_eq!(shifted_char(0x1E), Some('A'));
    assert_eq!(base_char(0x39), Some(' '));
    assert_eq!(base_char(0x1C), Some('\n'));
    assert_eq!(base_char(0x0E), Some('\x08'));
    assert_eq!(base_char(0x0F), Some('\t'));
    assert_eq!(shifted_char(0x28), Some('"'));
    assert_eq!(shifted_char(0x0B), Some(')'));
    assert_eq!(base_char(0x2A), None);
    assert_eq!(base_char(0x3B), None);
}
