use kfs::command::{parse_command, ShellCommand};
use kfs::keyboard::{KeyEvent, KeyboardState, LogicalKey};
use kfs::scancode::NamedKey;
use kfs::shell::{
    handle_command, show_prompt, start_shell, Shell, ShellAction, HELP_TEXT, INVALID_LINE,
};

fn feed(kb: &mut KeyboardState, shell: &mut Shell, bytes: &[u8]) -> Vec<ShellAction> {
    let mut out = Vec::new();
    for &b in bytes {
        if let Some(ev) = kb.handle_scancode(b) {
            out.extend(shell.handle_keypress(ev));
        }
    }
    out
}

fn press(key: LogicalKey) -> KeyEvent {
    let kb = KeyboardState::new();
    KeyEvent { key, is_release: false, modifiers: kb.modifiers }
}

fn type_text(shell: &mut Shell, text: &str) -> Vec<ShellAction> {
    let mut out = Vec::new();
    for c in text.chars() {
        out.extend(shell.handle_keypress(press(LogicalKey::Character(c))));
    }
    out
}

#[test]
fn help_typed_on_keyboard_lists_commands() {
    let mut kb = KeyboardState::new();
    let mut shell = Shell::new();
    let typed = feed(
        &mut kb,
        &mut shell,
        &[0x23, 0xA3, 0x12, 0x92, 0x26, 0xA6, 0x19, 0x99],
    );
    assert_eq!(
        typed,
        vec![
            ShellAction::Echo(b'h'),
            ShellAction::Echo(b'e'),
            ShellAction::Echo(b'l'),
            ShellAction::Echo(b'p')
        ]
    );
    assert_eq!(shell.line_bytes(), b"help".to_vec());
    let out = feed(&mut kb, &mut shell, &[0x1C]);
    assert_eq!(
        out,
        vec![
            ShellAction::NewLine,
            ShellAction::Write(HELP_TEXT.to_string()),
            ShellAction::Prompt
        ]
    );
    assert!(shell.line_bytes().is_empty());
}

#[test]
fn help_names_every_command() {
    for name in [
        "help", "clear", "cls", "info", "reboot", "restart", "halt", "shutdown", "stack",
        "callstack", "gdt", "gdtinfo", "screen", "exit", "quit", "42",
    ] {
        assert!(HELP_TEXT.contains(name), "{name}");
    }
    let mut shell = Shell::new();
    let first = handle_command(&mut shell, "help");
    let second = handle_command(&mut shell, " help ");
    assert_eq!(first, vec![ShellAction::Write(HELP_TEXT.to_string())]);
    assert_eq!(first, second);
    assert!(shell.line_bytes().is_empty());
}

#[test]
fn unknown_command_is_quoted_and_line_cleared() {
    let mut shell = Shell::new();
    type_text(&mut shell, "frobnicate");
    let out = shell.handle_keypress(press(LogicalKey::Named(NamedKey::Enter)));
    assert_eq!(out.len(), 3);
    assert_eq!(out[0], ShellAction::NewLine);
    match &out[1] {
        ShellAction::Write(msg) => {
            assert!(msg.contains("frobnicate"));
            assert!(msg.starts_with("Unknown command"));
        }
        other => panic!("unexpected action {:?}", other),
    }
    assert_eq!(out[2], ShellAction::Prompt);
    assert!(shell.line_bytes().is_empty());
    assert!(shell.running());
}

#[test]
fn full_buffer_drops_extra_character() {
    let mut shell = Shell::new();
    let text: String = std::iter::repeat('x').take(255).collect();
    let echoed = type_text(&mut shell, &text);
    assert_eq!(echoed.len(), 255);
    assert_eq!(shell.line_bytes().len(), 255);
    let out = shell.handle_keypress(press(LogicalKey::Character('y')));
    assert!(out.is_empty());
    assert_eq!(shell.line_bytes().len(), 255);
    assert!(shell.line_bytes().iter().all(|&b| b == b'x'));
}

#[test]
fn many_characters_never_overflow() {
    let mut shell = Shell::new();
    let text: String = std::iter::repeat('z').take(600).collect();
    type_text(&mut shell, &text);
    assert_eq!(shell.line_bytes().len(), 255);
    for _ in 0..10 {
        shell.handle_keypress(press(LogicalKey::Named(NamedKey::Tab)));
    }
    assert_eq!(shell.line_bytes().len(), 255);
}

#[test]
fn backspace_removes_last_byte() {
    let mut shell = Shell::new();
    type_text(&mut shell, "ab");
    let out = shell.handle_keypress(press(LogicalKey::Named(NamedKey::Backspace)));
    assert_eq!(out, vec![ShellAction::Erase]);
    assert_eq!(shell.line_bytes(), b"a".to_vec());
    shell.handle_keypress(press(LogicalKey::Named(NamedKey::Backspace)));
    let out = shell.handle_keypress(press(LogicalKey::Named(NamedKey::Backspace)));
    assert!(out.is_empty());
    assert!(shell.line_bytes().is_empty());
}

#[test]
fn tab_inserts_four_spaces() {
    let mut shell = Shell::new();
    type_text(&mut shell, "a");
    let out = shell.handle_keypress(press(LogicalKey::Named(NamedKey::Tab)));
    assert_eq!(out, vec![ShellAction::Echo(b' '); 4]);
    assert_eq!(shell.line_bytes(), b"a    ".to_vec());
}

#[test]
fn tab_near_the_bound_fills_only_the_room_left() {
    let mut shell = Shell::new();
    let text: String = std::iter::repeat('q').take(253).collect();
    type_text(&mut shell, &text);
    let out = shell.handle_keypress(press(LogicalKey::Named(NamedKey::Tab)));
    assert_eq!(out, vec![ShellAction::Echo(b' '); 2]);
    assert_eq!(shell.line_bytes().len(), 255);
}

#[test]
fn function_keys_switch_screens() {
    let mut shell = Shell::new();
    let out = shell.handle_keypress(press(LogicalKey::Named(NamedKey::F2)));
    assert_eq!(out, vec![ShellAction::SwitchScreen(1), ShellAction::Prompt]);
    assert_eq!(shell.active_screen_index(), 1);
    let out = shell.handle_keypress(press(LogicalKey::Named(NamedKey::F1)));
    assert_eq!(out, vec![ShellAction::SwitchScreen(0)]);
    let out = shell.handle_keypress(press(LogicalKey::Named(NamedKey::F2)));
    assert_eq!(out, vec![ShellAction::SwitchScreen(1)]);
    let out = shell.handle_keypress(press(LogicalKey::Named(NamedKey::F5)));
    assert!(out.is_empty());
    assert_eq!(shell.active_screen_index(), 1);
}

#[test]
fn other_named_keys_are_ignored() {
    let mut shell = Shell::new();
    type_text(&mut shell, "ls");
    for k in [NamedKey::ArrowUp, NamedKey::Escape, NamedKey::Home, NamedKey::Delete] {
        assert!(shell.handle_keypress(press(LogicalKey::Named(k))).is_empty());
    }
    assert_eq!(shell.line_bytes(), b"ls".to_vec());
}

#[test]
fn non_ascii_character_is_dropped() {
    let mut shell = Shell::new();
    let out = shell.handle_keypress(press(LogicalKey::Character('é')));
    assert!(out.is_empty());
    assert!(shell.line_bytes().is_empty());
}

#[test]
fn commands_dispatch_to_collaborators() {
    let mut shell = Shell::new();
    assert!(handle_command(&mut shell, "   ").is_empty());
    assert_eq!(handle_command(&mut shell, "clear"), vec![ShellAction::ClearScreen]);
    assert_eq!(handle_command(&mut shell, "  gdt "), vec![ShellAction::ShowGdt]);
    assert_eq!(handle_command(&mut shell, "st"), vec![ShellAction::ShowStack]);
    let out = handle_command(&mut shell, "info");
    assert_eq!(out.len(), 2);
    assert_eq!(out[1], ShellAction::ShowDiagnostics);
    let out = handle_command(&mut shell, "reboot");
    assert_eq!(out.last(), Some(&ShellAction::Reboot));
    let out = handle_command(&mut shell, "halt");
    assert_eq!(out.last(), Some(&ShellAction::Halt));
    let out = handle_command(&mut shell, "42");
    assert_eq!(out.len(), 1);
    assert!(matches!(&out[0], ShellAction::Write(t) if t.contains("42")));
}

#[test]
fn command_names_are_case_sensitive() {
    assert_eq!(parse_command("help"), ShellCommand::Help);
    assert_eq!(parse_command("\t help \n"), ShellCommand::Help);
    assert_eq!(parse_command("HELP"), ShellCommand::Unknown);
    assert_eq!(parse_command("he lp"), ShellCommand::Unknown);
    assert_eq!(parse_command(""), ShellCommand::Empty);
    assert_eq!(parse_command("\u{3000}cls\u{a0}"), ShellCommand::Clear);
    assert_eq!(parse_command("42"), ShellCommand::Answer);
}

#[test]
fn exit_stops_input() {
    let mut shell = Shell::new();
    type_text(&mut shell, "quit");
    let out = shell.handle_keypress(press(LogicalKey::Named(NamedKey::Enter)));
    assert_eq!(out.len(), 3);
    assert!(!shell.running());
    assert!(type_text(&mut shell, "help").is_empty());
    assert!(shell.line_bytes().is_empty());
}

#[test]
fn start_shell_shows_banner_then_prompt() {
    let (shell, out) = start_shell();
    assert!(shell.running());
    assert_eq!(out.len(), 2);
    assert_eq!(out[1], ShellAction::Prompt);
    assert_eq!(show_prompt(), vec![ShellAction::Prompt]);
}

#[test]
fn invalid_marker_is_not_a_command() {
    assert_eq!(parse_command(INVALID_LINE), ShellCommand::Unknown);
}
