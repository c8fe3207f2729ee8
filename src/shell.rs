//! The line-editing shell: it turns key events into edits of its line and
//! into actions for the display, power and diagnostics collaborators, and
//! dispatches each completed line to a command.

use vstd::prelude::*;
use vstd::string::StringExecFns;
use vstd::utf8::{decode_utf8, valid_utf8};
use crate::command::{ShellCommand, command_of, parse_spec, trim, trimmed};
use crate::editor::{EditBuffer, MAX_LINE, insert_all_spec};
use crate::keyboard::{KeyEvent, LogicalKey};
use crate::scancode::NamedKey;
use crate::screens::{MAX_SCREENS, ScreenManager};

verus! {

/// The prompt drawn before each line.
pub const PROMPT: &'static str = "kfs> ";

/// Spaces that Tab inserts.
pub const TAB_WIDTH: usize = 4;

pub const HELP_TEXT: &'static str = "Available commands:\n  help, h        - Show this help message\n  clear, cls     - Clear the screen\n  info           - Show version and system information\n  stack, st      - Show kernel stack information\n  callstack, cs  - Show call stack trace\n  gdt, gdtinfo   - Show GDT information\n  screen         - Show screen information\n  reboot, restart - Reboot the system\n  halt, shutdown - Halt the system\n  42             - The answer\n  exit, quit     - Exit the shell\n\nKeys:\n  F1-F4          - Switch virtual screens\n";

pub const INFO_TEXT: &'static str = "KFS - Kernel From Scratch\nVersion 2.0.0\nArchitecture: x86 (i386)\n";

pub const SCREEN_TEXT: &'static str = "Virtual screens: 4\nUse F1-F4 to switch between screens\n";

pub const REBOOT_TEXT: &'static str = "Rebooting system...\n";

pub const HALT_TEXT: &'static str = "System halted.\n";

pub const EXIT_TEXT: &'static str = "Exiting shell...\n";

pub const ANSWER_TEXT: &'static str = "42: the answer to life, the universe and everything.\n";

pub const UNKNOWN_PREFIX: &'static str = "Unknown command: ";

pub const UNKNOWN_SUFFIX: &'static str = "\nType 'help' for available commands.\n";

/// What a line that is not valid UTF-8 is replaced with.
pub const INVALID_LINE: &'static str = "<invalid input>";

pub const BANNER_TEXT: &'static str = "KFS - Kernel From Scratch\nType 'help' for available commands.\nUse F1-F4 to switch between virtual screens.\n";

/// A request to a collaborator, in the order the shell makes them.
#[derive(Clone, Debug, PartialEq, Eq)]
pub enum ShellAction {
    /// Show one typed byte.
    Echo(u8),
    /// Erase the last visible column (backspace, space, backspace).
    Erase,
    NewLine,
    Write(String),
    /// Draw the prompt on a fresh line.
    Prompt,
    ClearScreen,
    SwitchScreen(usize),
    /// Report the stack pointers and the descriptor table summary.
    ShowDiagnostics,
    ShowStack,
    ShowCallStack,
    ShowGdt,
    Reboot,
    Halt,
}

/// A `ShellAction` with its text as characters.
pub enum ActionView {
    Echo(u8),
    Erase,
    NewLine,
    Write(Seq<char>),
    Prompt,
    ClearScreen,
    SwitchScreen(nat),
    ShowDiagnostics,
    ShowStack,
    ShowCallStack,
    ShowGdt,
    Reboot,
    Halt,
}

impl View for ShellAction {
    type V = ActionView;

    open spec fn view(&self) -> ActionView {
        match self {
            ShellAction::Echo(b) => ActionView::Echo(*b),
            ShellAction::Erase => ActionView::Erase,
            ShellAction::NewLine => ActionView::NewLine,
            ShellAction::Write(s) => ActionView::Write(s@),
            ShellAction::Prompt => ActionView::Prompt,
            ShellAction::ClearScreen => ActionView::ClearScreen,
            ShellAction::SwitchScreen(i) => ActionView::SwitchScreen(*i as nat),
            ShellAction::ShowDiagnostics => ActionView::ShowDiagnostics,
            ShellAction::ShowStack => ActionView::ShowStack,
            ShellAction::ShowCallStack => ActionView::ShowCallStack,
            ShellAction::ShowGdt => ActionView::ShowGdt,
            ShellAction::Reboot => ActionView::Reboot,
            ShellAction::Halt => ActionView::Halt,
        }
    }
}

pub open spec fn views(s: Seq<ShellAction>) -> Seq<ActionView> {
    s.map_values(|a: ShellAction| a@)
}

/// The message for a line that names no command: it quotes the line.
pub open spec fn unknown_text(t: Seq<char>) -> Seq<char> {
    UNKNOWN_PREFIX@ + t + UNKNOWN_SUFFIX@
}

/// What the dispatcher asks for on a command; `t` is the trimmed line.
pub open spec fn command_actions(cmd: ShellCommand, t: Seq<char>) -> Seq<ActionView> {
    match cmd {
        ShellCommand::Empty => seq![],
        ShellCommand::Help => seq![ActionView::Write(HELP_TEXT@)],
        ShellCommand::Clear => seq![ActionView::ClearScreen],
        ShellCommand::Info => seq![ActionView::Write(INFO_TEXT@), ActionView::ShowDiagnostics],
        ShellCommand::Reboot => seq![ActionView::Write(REBOOT_TEXT@), ActionView::Reboot],
        ShellCommand::Halt => seq![ActionView::Write(HALT_TEXT@), ActionView::Halt],
        ShellCommand::Stack => seq![ActionView::ShowStack],
        ShellCommand::CallStack => seq![ActionView::ShowCallStack],
        ShellCommand::GdtInfo => seq![ActionView::ShowGdt],
        ShellCommand::Screen => seq![ActionView::Write(SCREEN_TEXT@)],
        ShellCommand::Exit => seq![ActionView::Write(EXIT_TEXT@)],
        ShellCommand::Answer => seq![ActionView::Write(ANSWER_TEXT@)],
        ShellCommand::Unknown => seq![ActionView::Write(unknown_text(t))],
    }
}

/// The text of a submitted line: its UTF-8 decoding, or the fallback marker.
pub open spec fn line_text(bytes: Seq<u8>) -> Seq<char> {
    if valid_utf8(bytes) {
        decode_utf8(bytes)
    } else {
        INVALID_LINE@
    }
}

/// The virtual screen that a function key selects.
pub open spec fn screen_key(k: NamedKey) -> Option<nat> {
    match k {
        NamedKey::F1 => Some(0),
        NamedKey::F2 => Some(1),
        NamedKey::F3 => Some(2),
        NamedKey::F4 => Some(3),
        _ => None,
    }
}

/// The bytes that Tab feeds to the line.
pub open spec fn tab_spaces() -> Seq<u8> {
    Seq::new(TAB_WIDTH as nat, |i: int| 32u8)
}

/// Whether a character is stored in the line as one byte.
pub open spec fn is_ascii_char(c: char) -> bool {
    (c as u32) < 128
}

/// Relies on core::str::from_utf8: it accepts exactly the well-formed UTF-8
/// byte sequences and hands back the text they encode.
#[verifier::external_body]
fn decode_line(bytes: &[u8]) -> (r: Option<String>)
    ensures
        r is Some <==> valid_utf8(bytes@),
        r is Some ==> r->Some_0@ == decode_utf8(bytes@),
{
    match core::str::from_utf8(bytes) {
        Ok(s) => Some(s.to_string()),
        Err(_) => None,
    }
}

/// The shell: the line being typed, the virtual screens, and whether it
/// still takes input.
pub struct Shell {
    editor: EditBuffer,
    screens: ScreenManager,
    running: bool,
}

impl Shell {
    pub closed spec fn wf(&self) -> bool {
        self.editor.wf() && self.screens.wf() && self.screens.shown().len() == MAX_SCREENS
    }

    /// The bytes of the line being typed.
    pub closed spec fn line(&self) -> Seq<u8> {
        self.editor@
    }

    pub closed spec fn is_running(&self) -> bool {
        self.running
    }

    pub closed spec fn active_screen(&self) -> nat {
        self.screens.active_spec()
    }

    /// Which virtual screens have been shown, by index.
    pub closed spec fn shown_screens(&self) -> Seq<bool> {
        self.screens.shown()
    }

    /// A running shell with an empty line on screen 0.
    pub fn new() -> (r: Shell)
        ensures
            r.wf(),
            r.is_running(),
            r.line() == Seq::<u8>::empty(),
            r.active_screen() == 0,
            r.shown_screens() == seq![true, false, false, false],
            r.shown_screens().len() == MAX_SCREENS,
    {
        Shell { editor: EditBuffer::new(), screens: ScreenManager::new(), running: true }
    }

    /// The line typed so far.
    pub fn line_bytes(&self) -> (r: Vec<u8>)
        requires
            self.wf(),
        ensures
            r@ == self.line(),
    {
        self.editor.contents()
    }

    pub fn running(&self) -> (r: bool)
        ensures
            r == self.is_running(),
    {
        self.running
    }

    /// The index of the active virtual screen.
    pub fn active_screen_index(&self) -> (r: usize)
        requires
            self.wf(),
        ensures
            r == self.active_screen(),
    {
        self.screens.active()
    }

    /// Dispatches one line: trims it, looks the command up and returns what
    /// the command asks of the collaborators. `exit` stops the shell from
    /// taking further input.
    pub fn handle_command(&mut self, line: &str) -> (r: Vec<ShellAction>)
        requires
            old(self).wf(),
        ensures
            final(self).wf(),
            views(r@) == command_actions(parse_spec(line@), trim(line@)),
            final(self).is_running() == (old(self).is_running() && parse_spec(line@)
                != ShellCommand::Exit),
            final(self).line() == old(self).line(),
            final(self).active_screen() == old(self).active_screen(),
            final(self).shown_screens() == old(self).shown_screens(),
    {
        let t = trimmed(line);
        let cmd = command_of(t);
        let mut r: Vec<ShellAction> = Vec::new();
        match cmd {
            ShellCommand::Empty => {},
            ShellCommand::Help => {
                r.push(ShellAction::Write(String::from_str(HELP_TEXT)));
            },
            ShellCommand::Clear => {
                r.push(ShellAction::ClearScreen);
            },
            ShellCommand::Info => {
                r.push(ShellAction::Write(String::from_str(INFO_TEXT)));
                r.push(ShellAction::ShowDiagnostics);
            },
            ShellCommand::Reboot => {
                r.push(ShellAction::Write(String::from_str(REBOOT_TEXT)));
                r.push(ShellAction::Reboot);
            },
            ShellCommand::Halt => {
                r.push(ShellAction::Write(String::from_str(HALT_TEXT)));
                r.push(ShellAction::Halt);
            },
            ShellCommand::Stack => {
                r.push(ShellAction::ShowStack);
            },
            ShellCommand::CallStack => {
                r.push(ShellAction::ShowCallStack);
            },
            ShellCommand::GdtInfo => {
                r.push(ShellAction::ShowGdt);
            },
            ShellCommand::Screen => {
                r.push(ShellAction::Write(String::from_str(SCREEN_TEXT)));
            },
            ShellCommand::Exit => {
                self.running = false;
                r.push(ShellAction::Write(String::from_str(EXIT_TEXT)));
            },
            ShellCommand::Answer => {
                r.push(ShellAction::Write(String::from_str(ANSWER_TEXT)));
            },
            ShellCommand::Unknown => {
                let mut msg = String::from_str(UNKNOWN_PREFIX);
                msg.append(t);
                msg.append(UNKNOWN_SUFFIX);
                r.push(ShellAction::Write(msg));
            },
        }
        assert(views(r@) =~= command_actions(parse_spec(line@), trim(line@)));
        r
    }

    /// Handles one key event and returns the actions it asks for, in order.
    /// Enter submits the line and clears it, Backspace removes the last
    /// byte, Tab inserts spaces, F1 to F4 switch screens, and a character is
    /// appended while there is room. Other keys, and every key once the
    /// shell has exited, do nothing.
    pub fn handle_keypress(&mut self, event: KeyEvent) -> (r: Vec<ShellAction>)
        requires
            old(self).wf(),
        ensures
            final(self).wf(),
            final(self).shown_screens().len() == MAX_SCREENS,
            !old(self).is_running() ==> r@.len() == 0 && final(self).line() == old(self).line()
                && final(self).active_screen() == old(self).active_screen()
                && final(self).shown_screens() == old(self).shown_screens()
                && !final(self).is_running(),
            old(self).is_running() ==> match event.key {
                LogicalKey::Named(NamedKey::Enter) => {
                    let text = line_text(old(self).line());
                    &&& views(r@) == seq![ActionView::NewLine] + command_actions(
                        parse_spec(text),
                        trim(text),
                    ) + seq![ActionView::Prompt]
                    &&& final(self).line() == Seq::<u8>::empty()
                    &&& final(self).is_running() == (parse_spec(text) != ShellCommand::Exit)
                    &&& final(self).active_screen() == old(self).active_screen()
                    &&& final(self).shown_screens() == old(self).shown_screens()
                },
                LogicalKey::Named(NamedKey::Backspace) => {
                    &&& final(self).line() == (if old(self).line().len() > 0 {
                        old(self).line().drop_last()
                    } else {
                        old(self).line()
                    })
                    &&& views(r@) == (if old(self).line().len() > 0 {
                        seq![ActionView::Erase]
                    } else {
                        Seq::<ActionView>::empty()
                    })
                    &&& final(self).is_running()
                    &&& final(self).active_screen() == old(self).active_screen()
                    &&& final(self).shown_screens() == old(self).shown_screens()
                },
                LogicalKey::Named(NamedKey::Tab) => {
                    &&& final(self).line() == insert_all_spec(old(self).line(), tab_spaces())
                    &&& views(r@) == Seq::new(
                        (final(self).line().len() - old(self).line().len()) as nat,
                        |i: int| ActionView::Echo(32u8),
                    )
                    &&& final(self).is_running()
                    &&& final(self).active_screen() == old(self).active_screen()
                    &&& final(self).shown_screens() == old(self).shown_screens()
                },
                LogicalKey::Named(k) => {
                    &&& final(self).line() == old(self).line()
                    &&& final(self).is_running()
                    &&& match screen_key(k) {
                        Some(i) => {
                            &&& final(self).active_screen() == i
                            &&& final(self).shown_screens() == old(self).shown_screens().update(
                                i as int,
                                true,
                            )
                            &&& views(r@) == (if old(self).shown_screens()[i as int] {
                                seq![ActionView::SwitchScreen(i)]
                            } else {
                                seq![ActionView::SwitchScreen(i), ActionView::Prompt]
                            })
                        },
                        None => {
                            &&& r@.len() == 0
                            &&& final(self).active_screen() == old(self).active_screen()
                            &&& final(self).shown_screens() == old(self).shown_screens()
                        },
                    }
                },
                LogicalKey::Character(c) => {
                    let stored = is_ascii_char(c) && old(self).line().len() < MAX_LINE;
                    &&& final(self).line() == (if stored {
                        old(self).line().push((c as u32) as u8)
                    } else {
                        old(self).line()
                    })
                    &&& views(r@) == (if stored {
                        seq![ActionView::Echo((c as u32) as u8)]
                    } else {
                        Seq::<ActionView>::empty()
                    })
                    &&& final(self).is_running()
                    &&& final(self).active_screen() == old(self).active_screen()
                    &&& final(self).shown_screens() == old(self).shown_screens()
                },
            },
    {
        let mut r: Vec<ShellAction> = Vec::new();
        if !self.running {
            return r;
        }
        match event.key {
            LogicalKey::Named(NamedKey::Enter) => {
                let bytes = self.editor.contents();
                let text = match decode_line(bytes.as_slice()) {
                    Some(s) => s,
                    None => String::from_str(INVALID_LINE),
                };
                r.push(ShellAction::NewLine);
                let mut done = self.handle_command(text.as_str());
                let ghost done_view = done@;
                r.append(&mut done);
                self.editor.clear();
                r.push(ShellAction::Prompt);
                assert(views(r@) =~= seq![ActionView::NewLine] + views(done_view) + seq![
                    ActionView::Prompt,
                ]);
            },
            LogicalKey::Named(NamedKey::Backspace) => {
                if self.editor.backspace() {
                    r.push(ShellAction::Erase);
                }
                assert(views(r@) =~= (if old(self).line().len() > 0 {
                    seq![ActionView::Erase]
                } else {
                    Seq::<ActionView>::empty()
                }));
            },
            LogicalKey::Named(NamedKey::Tab) => {
                let ghost start = self.editor@;
                let mut i: usize = 0;
                while i < TAB_WIDTH
                    invariant
                        self.wf(),
                        self.running,
                        self.screens == old(self).screens,
                        0 <= i <= TAB_WIDTH,
                        self.editor@ == insert_all_spec(start, tab_spaces().take(i as int)),
                        self.editor@.len() >= start.len(),
                        r@.len() == self.editor@.len() - start.len(),
                        forall|j: int| 0 <= j < r@.len() ==> r@[j] == ShellAction::Echo(32u8),
                    decreases TAB_WIDTH - i,
                {
                    assert(tab_spaces().take(i as int + 1).drop_last() =~= tab_spaces().take(
                        i as int,
                    ));
                    if self.editor.insert(32u8) {
                        r.push(ShellAction::Echo(32u8));
                    }
                    i = i + 1;
                }
                assert(tab_spaces().take(TAB_WIDTH as int) =~= tab_spaces());
                assert(views(r@) =~= Seq::new(
                    (self.editor@.len() - start.len()) as nat,
                    |j: int| ActionView::Echo(32u8),
                ));
            },
            LogicalKey::Named(k) => {
                let index: Option<usize> = match k {
                    NamedKey::F1 => Some(0),
                    NamedKey::F2 => Some(1),
                    NamedKey::F3 => Some(2),
                    NamedKey::F4 => Some(3),
                    _ => None,
                };
                if let Some(i) = index {
                    let first = self.screens.switch_to_screen(i);
                    r.push(ShellAction::SwitchScreen(i));
                    if first {
                        r.push(ShellAction::Prompt);
                    }
                }
                assert(views(r@) =~= match screen_key(k) {
                    Some(i) => if old(self).shown_screens()[i as int] {
                        seq![ActionView::SwitchScreen(i)]
                    } else {
                        seq![ActionView::SwitchScreen(i), ActionView::Prompt]
                    },
                    None => views(r@),
                });
            },
            LogicalKey::Character(c) => {
                if (c as u32) < 128 {
                    let b = (c as u32) as u8;
                    if self.editor.insert(b) {
                        r.push(ShellAction::Echo(b));
                    }
                }
                assert(views(r@) =~= (if is_ascii_char(c) && old(self).line().len() < MAX_LINE {
                    seq![ActionView::Echo((c as u32) as u8)]
                } else {
                    Seq::<ActionView>::empty()
                }));
            },
        }
        r
    }
}

/// The line after each character of `cs` is typed in turn, as
/// `Shell::handle_keypress` stores characters.
pub open spec fn typed_line(line: Seq<u8>, cs: Seq<char>) -> Seq<u8>
    decreases cs.len(),
{
    if cs.len() == 0 {
        line
    } else {
        let prev = typed_line(line, cs.drop_last());
        if is_ascii_char(cs.last()) && prev.len() < MAX_LINE {
            prev.push((cs.last() as u32) as u8)
        } else {
            prev
        }
    }
}

/// However many characters are typed without an Enter, the line never holds
/// more than `MAX_LINE` bytes, and a full line no longer changes.
pub proof fn lemma_typing_stays_bounded(line: Seq<u8>, cs: Seq<char>)
    requires
        line.len() <= MAX_LINE,
    ensures
        line.len() <= typed_line(line, cs).len() <= MAX_LINE,
        line.len() == MAX_LINE ==> typed_line(line, cs) == line,
        typed_line(line, cs).subrange(0, line.len() as int) == line,
    decreases cs.len(),
{
    if cs.len() > 0 {
        lemma_typing_stays_bounded(line, cs.drop_last());
        let prev = typed_line(line, cs.drop_last());
        if is_ascii_char(cs.last()) && prev.len() < MAX_LINE {
            assert(prev.push((cs.last() as u32) as u8).subrange(0, line.len() as int)
                =~= prev.subrange(0, line.len() as int));
        }
    } else {
        assert(line.subrange(0, line.len() as int) =~= line);
    }
}

/// The bytes that ASCII characters are stored as.
pub open spec fn ascii_bytes(cs: Seq<char>) -> Seq<u8> {
    cs.map_values(|c: char| (c as u32) as u8)
}

/// Typing ASCII characters without an Enter keeps exactly the first bytes
/// that fit: the old line followed by the characters, cut at `MAX_LINE`.
pub proof fn lemma_typing_keeps_first_bytes(line: Seq<u8>, cs: Seq<char>)
    requires
        line.len() <= MAX_LINE,
        forall|i: int| 0 <= i < cs.len() ==> is_ascii_char(#[trigger] cs[i]),
    ensures
        typed_line(line, cs) == (line + ascii_bytes(cs)).take(
            if line.len() + cs.len() <= MAX_LINE {
                (line.len() + cs.len()) as int
            } else {
                MAX_LINE as int
            },
        ),
    decreases cs.len(),
{
    let n = if line.len() + cs.len() <= MAX_LINE {
        (line.len() + cs.len()) as int
    } else {
        MAX_LINE as int
    };
    if cs.len() == 0 {
        assert((line + ascii_bytes(cs)).take(n) =~= line);
    } else {
        let init = cs.drop_last();
        assert forall|i: int| 0 <= i < init.len() implies is_ascii_char(#[trigger] init[i]) by {
            assert(init[i] == cs[i]);
        }
        lemma_typing_keeps_first_bytes(line, init);
        lemma_typing_stays_bounded(line, init);
        assert(ascii_bytes(init) =~= ascii_bytes(cs).drop_last());
        assert(line + ascii_bytes(init) =~= (line + ascii_bytes(cs)).drop_last());
        assert(is_ascii_char(cs[cs.len() - 1]));
        let prev = typed_line(line, init);
        if prev.len() < MAX_LINE {
            assert(prev.push((cs.last() as u32) as u8) =~= (line + ascii_bytes(cs)).take(n));
        } else {
            assert(prev =~= (line + ascii_bytes(cs)).take(n));
        }
    }
}

/// A new shell and what it shows first: the banner, then the prompt.
pub fn start_shell() -> (r: (Shell, Vec<ShellAction>))
    ensures
        r.0.wf(),
        r.0.is_running(),
        r.0.line() == Seq::<u8>::empty(),
        r.0.active_screen() == 0,
        views(r.1@) == seq![ActionView::Write(BANNER_TEXT@), ActionView::Prompt],
{
    let shell = Shell::new();
    let mut out: Vec<ShellAction> = Vec::new();
    out.push(ShellAction::Write(String::from_str(BANNER_TEXT)));
    out.push(ShellAction::Prompt);
    assert(views(out@) =~= seq![ActionView::Write(BANNER_TEXT@), ActionView::Prompt]);
    (shell, out)
}

/// Asks for the prompt to be drawn on a fresh line.
pub fn show_prompt() -> (r: Vec<ShellAction>)
    ensures
        views(r@) == seq![ActionView::Prompt],
{
    let mut out: Vec<ShellAction> = Vec::new();
    out.push(ShellAction::Prompt);
    assert(views(out@) =~= seq![ActionView::Prompt]);
    out
}

/// Asks for a fresh input line: the prompt, drawn on a new line.
pub fn handle_command_input() -> (r: Vec<ShellAction>)
    ensures
        views(r@) == seq![ActionView::Prompt],
{
    show_prompt()
}

/// Dispatches one line on `shell`; see `Shell::handle_command`.
pub fn handle_command(shell: &mut Shell, cmd: &str) -> (r: Vec<ShellAction>)
    requires
        old(shell).wf(),
    ensures
        final(shell).wf(),
        views(r@) == command_actions(parse_spec(cmd@), trim(cmd@)),
        final(shell).is_running() == (old(shell).is_running() && parse_spec(cmd@)
            != ShellCommand::Exit),
        final(shell).line() == old(shell).line(),
        final(shell).active_screen() == old(shell).active_screen(),
        final(shell).shown_screens() == old(shell).shown_screens(),
{
    shell.handle_command(cmd)
}

} // verus!
