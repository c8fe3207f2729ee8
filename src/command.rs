//! The command table: trimming a typed line and naming the command it asks
//! for.

use vstd::prelude::*;
use vstd::string::StrSliceExecFns;

verus! {

/// The commands of the shell. `Empty` is a blank line, `Unknown` anything
/// the table does not name.
#[derive(Clone, Copy, Debug, PartialEq, Eq, Structural)]
pub enum ShellCommand {
    Help,
    Clear,
    Info,
    Reboot,
    Halt,
    Stack,
    CallStack,
    GdtInfo,
    Screen,
    Exit,
    Answer,
    Empty,
    Unknown,
}

/// White space as Unicode's `White_Space` property lists it.
pub open spec fn is_space(c: char) -> bool {
    ('\t' <= c && c <= '\r') || c == ' ' || c == '\u{85}' || c == '\u{a0}' || c == '\u{1680}' || (
    '\u{2000}' <= c && c <= '\u{200a}') || c == '\u{2028}' || c == '\u{2029}' || c == '\u{202f}'
        || c == '\u{205f}' || c == '\u{3000}'
}

/// `s` without its leading white space.
pub open spec fn trim_start(s: Seq<char>) -> Seq<char>
    decreases s.len(),
{
    if s.len() > 0 && is_space(s[0]) {
        trim_start(s.drop_first())
    } else {
        s
    }
}

/// `s` without its trailing white space.
pub open spec fn trim_end(s: Seq<char>) -> Seq<char>
    decreases s.len(),
{
    if s.len() > 0 && is_space(s.last()) {
        trim_end(s.drop_last())
    } else {
        s
    }
}

/// `s` without white space at either end.
pub open spec fn trim(s: Seq<char>) -> Seq<char> {
    trim_end(trim_start(s))
}

/// The command that a trimmed line names; names are matched exactly, case
/// included.
pub open spec fn command_spec(t: Seq<char>) -> ShellCommand {
    if t.len() == 0 {
        ShellCommand::Empty
    } else if t == "help"@ || t == "h"@ {
        ShellCommand::Help
    } else if t == "clear"@ || t == "cls"@ {
        ShellCommand::Clear
    } else if t == "info"@ {
        ShellCommand::Info
    } else if t == "reboot"@ || t == "restart"@ {
        ShellCommand::Reboot
    } else if t == "halt"@ || t == "shutdown"@ {
        ShellCommand::Halt
    } else if t == "stack"@ || t == "st"@ {
        ShellCommand::Stack
    } else if t == "callstack"@ || t == "cs"@ {
        ShellCommand::CallStack
    } else if t == "gdt"@ || t == "gdtinfo"@ {
        ShellCommand::GdtInfo
    } else if t == "screen"@ {
        ShellCommand::Screen
    } else if t == "exit"@ || t == "quit"@ {
        ShellCommand::Exit
    } else if t == "42"@ {
        ShellCommand::Answer
    } else {
        ShellCommand::Unknown
    }
}

/// The command that a line asks for.
pub open spec fn parse_spec(s: Seq<char>) -> ShellCommand {
    command_spec(trim(s))
}

/// Whether `c` is white space.
pub fn is_space_char(c: char) -> (r: bool)
    ensures
        r == is_space(c),
{
    ('\t' <= c && c <= '\r') || c == ' ' || c == '\u{85}' || c == '\u{a0}' || c == '\u{1680}' || (
    '\u{2000}' <= c && c <= '\u{200a}') || c == '\u{2028}' || c == '\u{2029}' || c == '\u{202f}'
        || c == '\u{205f}' || c == '\u{3000}'
}

/// `s` without white space at either end.
pub fn trimmed(s: &str) -> (r: &str)
    ensures
        r@ == trim(s@),
{
    let n = s.unicode_len();
    let mut lo: usize = 0;
    assert(s@.subrange(0, n as int) =~= s@);
    while lo < n && is_space_char(s.get_char(lo))
        invariant
            n == s@.len(),
            0 <= lo <= n,
            trim_start(s@) == trim_start(s@.subrange(lo as int, n as int)),
        decreases n - lo,
    {
        assert(s@.subrange(lo as int, n as int).drop_first() =~= s@.subrange(
            lo as int + 1,
            n as int,
        ));
        lo = lo + 1;
    }
    assert(trim_start(s@) == s@.subrange(lo as int, n as int));
    let mut hi: usize = n;
    while hi > lo && is_space_char(s.get_char(hi - 1))
        invariant
            n == s@.len(),
            0 <= lo <= hi <= n,
            trim(s@) == trim_end(s@.subrange(lo as int, hi as int)),
        decreases hi - lo,
    {
        assert(s@.subrange(lo as int, hi as int).drop_last() =~= s@.subrange(
            lo as int,
            hi as int - 1,
        ));
        hi = hi - 1;
    }
    s.substring_char(lo, hi)
}

/// Whether the text of `s` is exactly `lit`.
pub fn text_is(s: &str, lit: &str) -> (r: bool)
    ensures
        r == (s@ == lit@),
{
    let n = s.unicode_len();
    if n != lit.unicode_len() {
        return false;
    }
    let mut i: usize = 0;
    while i < n
        invariant
            n == s@.len(),
            n == lit@.len(),
            0 <= i <= n,
            forall|j: int| 0 <= j < i ==> s@[j] == lit@[j],
        decreases n - i,
    {
        if s.get_char(i) != lit.get_char(i) {
            return false;
        }
        i = i + 1;
    }
    assert(s@ =~= lit@);
    true
}

/// The command that an already trimmed line names.
pub fn command_of(t: &str) -> (r: ShellCommand)
    ensures
        r == command_spec(t@),
{
    if t.unicode_len() == 0 {
        ShellCommand::Empty
    } else if text_is(t, "help") || text_is(t, "h") {
        ShellCommand::Help
    } else if text_is(t, "clear") || text_is(t, "cls") {
        ShellCommand::Clear
    } else if text_is(t, "info") {
        ShellCommand::Info
    } else if text_is(t, "reboot") || text_is(t, "restart") {
        ShellCommand::Reboot
    } else if text_is(t, "halt") || text_is(t, "shutdown") {
        ShellCommand::Halt
    } else if text_is(t, "stack") || text_is(t, "st") {
        ShellCommand::Stack
    } else if text_is(t, "callstack") || text_is(t, "cs") {
        ShellCommand::CallStack
    } else if text_is(t, "gdt") || text_is(t, "gdtinfo") {
        ShellCommand::GdtInfo
    } else if text_is(t, "screen") {
        ShellCommand::Screen
    } else if text_is(t, "exit") || text_is(t, "quit") {
        ShellCommand::Exit
    } else if text_is(t, "42") {
        ShellCommand::Answer
    } else {
        ShellCommand::Unknown
    }
}

/// The command that a line asks for, white space around it ignored.
pub fn parse_command(input: &str) -> (r: ShellCommand)
    ensures
        r == parse_spec(input@),
{
    command_of(trimmed(input))
}

} // verus!
