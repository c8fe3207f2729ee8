//! printf-style formatting for kernel messages: `%d`/`%i`, `%x`, `%X`,
//! `%s`, `%c`, `%p` and `%%`, each conversion taking the next argument.

use vstd::prelude::*;
use vstd::string::StrSliceExecFns;
use crate::vga::Color;

verus! {

/// One argument of a formatted message.
#[derive(Clone, Copy, Debug)]
pub enum PrintfArg<'a> {
    Int(i32),
    Str(&'a str),
    Char(char),
    Ptr(usize),
}

/// A formatted message and the colour it is shown in.
#[derive(Clone, Debug, PartialEq, Eq)]
pub struct ColoredText {
    pub color: Color,
    pub text: Vec<char>,
}

/// The digit for `d` (below 16), in lower or upper case.
pub open spec fn digit_char(d: nat, upper: bool) -> char {
    if d == 0 { '0' }
    else if d == 1 { '1' }
    else if d == 2 { '2' }
    else if d == 3 { '3' }
    else if d == 4 { '4' }
    else if d == 5 { '5' }
    else if d == 6 { '6' }
    else if d == 7 { '7' }
    else if d == 8 { '8' }
    else if d == 9 { '9' }
    else if d == 10 { if upper { 'A' } else { 'a' } }
    else if d == 11 { if upper { 'B' } else { 'b' } }
    else if d == 12 { if upper { 'C' } else { 'c' } }
    else if d == 13 { if upper { 'D' } else { 'd' } }
    else if d == 14 { if upper { 'E' } else { 'e' } }
    else { if upper { 'F' } else { 'f' } }
}

/// The decimal digits of `n`, most significant first.
pub open spec fn dec_digits(n: nat) -> Seq<char>
    decreases n,
{
    if n < 10 {
        seq![digit_char(n, false)]
    } else {
        dec_digits(n / 10) + seq![digit_char(n % 10, false)]
    }
}

/// The hexadecimal digits of `n`, most significant first.
pub open spec fn hex_digits(n: nat, upper: bool) -> Seq<char>
    decreases n,
{
    if n < 16 {
        seq![digit_char(n, upper)]
    } else {
        hex_digits(n / 16, upper) + seq![digit_char(n % 16, upper)]
    }
}

/// A signed integer in decimal, with a minus sign when negative.
pub open spec fn signed_decimal(v: i32) -> Seq<char> {
    if v < 0 {
        seq!['-'] + dec_digits((-v) as nat)
    } else {
        dec_digits(v as nat)
    }
}

/// The 32-bit two's complement pattern of `v`, as an unsigned number.
pub open spec fn twos_complement(v: i32) -> nat {
    if v < 0 {
        (v + 0x1_0000_0000) as nat
    } else {
        v as nat
    }
}

pub open spec fn is_conversion(c: char) -> bool {
    c == 'd' || c == 'i' || c == 'x' || c == 'X' || c == 's' || c == 'c' || c == 'p'
}

/// What conversion `conv` makes of `arg`; an argument of the wrong kind
/// gives nothing.
pub open spec fn arg_text(conv: char, arg: PrintfArg) -> Seq<char> {
    match arg {
        PrintfArg::Int(v) => if conv == 'd' || conv == 'i' {
            signed_decimal(v)
        } else if conv == 'x' {
            hex_digits(twos_complement(v), false)
        } else if conv == 'X' {
            hex_digits(twos_complement(v), true)
        } else {
            seq![]
        },
        PrintfArg::Str(s) => if conv == 's' {
            s@
        } else {
            seq![]
        },
        PrintfArg::Char(c) => if conv == 'c' {
            seq![c]
        } else {
            seq![]
        },
        PrintfArg::Ptr(p) => if conv == 'p' {
            seq!['0', 'x'] + hex_digits(p as nat, false)
        } else {
            seq![]
        },
    }
}

/// The output for format `f` from position `i` on, with `args[k]` the next
/// argument. `%%` gives `%`; a conversion takes the next argument; a `%`
/// before any other character, while arguments are left, gives `%` and drops
/// that character without taking an argument; a `%`
/// with no argument left, or at the end, stands for itself.
pub open spec fn format_from(f: Seq<char>, i: int, args: Seq<PrintfArg>, k: int) -> Seq<char>
    decreases f.len() - i,
{
    if i < 0 || i >= f.len() {
        seq![]
    } else if f[i] != '%' {
        seq![f[i]] + format_from(f, i + 1, args, k)
    } else if i + 1 >= f.len() {
        seq!['%']
    } else if f[i + 1] == '%' {
        seq!['%'] + format_from(f, i + 2, args, k)
    } else if 0 <= k < args.len() {
        if is_conversion(f[i + 1]) {
            arg_text(f[i + 1], args[k]) + format_from(f, i + 2, args, k + 1)
        } else {
            seq!['%'] + format_from(f, i + 2, args, k)
        }
    } else {
        seq!['%'] + format_from(f, i + 1, args, k)
    }
}

/// The digit for `d` (below 16), in lower or upper case.
pub fn digit(d: u64, upper: bool) -> (r: char)
    requires
        d < 16,
    ensures
        r == digit_char(d as nat, upper),
{
    if d == 0 { '0' }
    else if d == 1 { '1' }
    else if d == 2 { '2' }
    else if d == 3 { '3' }
    else if d == 4 { '4' }
    else if d == 5 { '5' }
    else if d == 6 { '6' }
    else if d == 7 { '7' }
    else if d == 8 { '8' }
    else if d == 9 { '9' }
    else if d == 10 { if upper { 'A' } else { 'a' } }
    else if d == 11 { if upper { 'B' } else { 'b' } }
    else if d == 12 { if upper { 'C' } else { 'c' } }
    else if d == 13 { if upper { 'D' } else { 'd' } }
    else if d == 14 { if upper { 'E' } else { 'e' } }
    else { if upper { 'F' } else { 'f' } }
}

/// Appends the decimal digits of `n`.
pub fn push_decimal(out: &mut Vec<char>, n: u64)
    ensures
        final(out)@ == old(out)@ + dec_digits(n as nat),
    decreases n,
{
    if n >= 10 {
        push_decimal(out, n / 10);
    }
    out.push(digit(n % 10, false));
    assert(final(out)@ =~= old(out)@ + dec_digits(n as nat));
}

/// Appends the hexadecimal digits of `n`.
pub fn push_hex(out: &mut Vec<char>, n: u64, upper: bool)
    ensures
        final(out)@ == old(out)@ + hex_digits(n as nat, upper),
    decreases n,
{
    if n >= 16 {
        push_hex(out, n / 16, upper);
    }
    out.push(digit(n % 16, upper));
    assert(final(out)@ =~= old(out)@ + hex_digits(n as nat, upper));
}

/// Appends the characters of `s`.
pub fn push_str(out: &mut Vec<char>, s: &str)
    ensures
        final(out)@ == old(out)@ + s@,
{
    let n = s.unicode_len();
    let ghost start = out@;
    let mut i: usize = 0;
    while i < n
        invariant
            n == s@.len(),
            0 <= i <= n,
            out@ == start + s@.subrange(0, i as int),
        decreases n - i,
    {
        out.push(s.get_char(i));
        i = i + 1;
        assert(out@ =~= start + s@.subrange(0, i as int));
    }
    assert(s@.subrange(0, n as int) =~= s@);
}

/// Appends what conversion `conv` makes of `arg`.
pub fn push_arg(out: &mut Vec<char>, conv: char, arg: PrintfArg)
    ensures
        final(out)@ == old(out)@ + arg_text(conv, arg),
{
    match arg {
        PrintfArg::Int(v) => {
            if conv == 'd' || conv == 'i' {
                if v < 0 {
                    out.push('-');
                    push_decimal(out, (-(v as i64)) as u64);
                } else {
                    push_decimal(out, v as u64);
                }
            } else if conv == 'x' || conv == 'X' {
                let bits: u64 = if v < 0 {
                    (v as i64 + 0x1_0000_0000i64) as u64
                } else {
                    v as u64
                };
                push_hex(out, bits, conv == 'X');
            }
        },
        PrintfArg::Str(s) => {
            if conv == 's' {
                push_str(out, s);
            }
        },
        PrintfArg::Char(c) => {
            if conv == 'c' {
                out.push(c);
            }
        },
        PrintfArg::Ptr(p) => {
            if conv == 'p' {
                out.push('0');
                out.push('x');
                push_hex(out, p as u64, false);
            }
        },
    }
    assert(final(out)@ =~= old(out)@ + arg_text(conv, arg));
}

/// Formats `format` with `args`.
pub fn kprintf(format: &str, args: &[PrintfArg]) -> (r: Vec<char>)
    ensures
        r@ == format_from(format@, 0, args@, 0),
{
    let f = format;
    let n = f.unicode_len();
    let mut out: Vec<char> = Vec::new();
    let mut i: usize = 0;
    let mut k: usize = 0;
    while i < n
        invariant
            n == f@.len(),
            0 <= i <= n + 1,
            k <= args@.len(),
            format_from(f@, 0, args@, 0) == out@ + format_from(f@, i as int, args@, k as int),
        decreases n + 1 - i,
    {
        let ch = f.get_char(i);
        let ghost before = out@;
        if ch != '%' {
            out.push(ch);
            i = i + 1;
        } else if i + 1 >= n {
            out.push('%');
            i = i + 1;
        } else {
            let next = f.get_char(i + 1);
            if next == '%' {
                out.push('%');
                i = i + 2;
            } else if k < args.len() {
                if next == 'd' || next == 'i' || next == 'x' || next == 'X' || next == 's'
                    || next == 'c' || next == 'p' {
                    push_arg(&mut out, next, args[k]);
                    k = k + 1;
                } else {
                    out.push('%');
                }
                i = i + 2;
            } else {
                out.push('%');
                i = i + 1;
            }
        }
        assert(format_from(f@, 0, args@, 0) =~= out@ + format_from(f@, i as int, args@, k as int));
    }
    assert(format_from(f@, i as int, args@, k as int) =~= Seq::<char>::empty());
    out
}

/// The ASCII digit for `d`: `0`-`9`, then lower-case letters.
pub open spec fn digit_byte(d: nat) -> u8 {
    if d < 10 {
        (48 + d) as u8
    } else {
        (97 + d - 10) as u8
    }
}

/// The digits of `n` in base `b`, most significant first.
pub open spec fn digits_in_base(n: nat, b: nat) -> Seq<u8>
    decreases n,
    via digits_in_base_decreases
{
    if b < 2 || n < b {
        seq![digit_byte(n)]
    } else {
        digits_in_base(n / b, b) + seq![digit_byte(n % b)]
    }
}

#[via_fn]
proof fn digits_in_base_decreases(n: nat, b: nat) {
    if !(b < 2 || n < b) {
        lemma_div_shrinks(n, b);
    }
}

/// Dividing by a base of two or more makes a number at least that large smaller.
pub proof fn lemma_div_shrinks(n: nat, b: nat)
    requires
        b >= 2,
        n >= b,
    ensures
        n / b < n,
{
    assert(n / b < n) by (nonlinear_arith)
        requires
            b >= 2,
            n >= b,
    ;
}

/// What `itoa` writes into a buffer of `len` bytes: the digits of |`value`|
/// in `base`, cut to their last `len - 1` when the buffer is short, after a
/// minus sign if the value is negative and there is room for it. Zero is
/// written as one `0`.
pub open spec fn itoa_spec(value: i32, len: nat, base: nat) -> Seq<u8> {
    if len == 0 {
        seq![]
    } else if value == 0 {
        seq![48u8]
    } else {
        let mag = if value < 0 {
            (-value) as nat
        } else {
            value as nat
        };
        let d = digits_in_base(mag, base);
        let k = if d.len() < len - 1 {
            d.len()
        } else {
            (len - 1) as nat
        };
        let body = d.subrange(d.len() - k, d.len() as int);
        if value < 0 && k < len - 1 {
            seq![45u8] + body
        } else {
            body
        }
    }
}

/// Appends the digits of `n` in base `base`.
fn push_digits(out: &mut std::vec::Vec<u8>, n: u32, base: u32)
    requires
        2 <= base <= 36,
    ensures
        final(out)@ == old(out)@ + digits_in_base(n as nat, base as nat),
    decreases n,
{
    if n >= base {
        proof {
            lemma_div_shrinks(n as nat, base as nat);
        }
        push_digits(out, n / base, base);
    }
    proof {
        if n < base {
            assert(n % base == n) by (nonlinear_arith)
                requires
                    n < base,
            ;
        }
        assert(n % base < base) by (nonlinear_arith)
            requires
                base >= 2,
        ;
    }
    let d = (n % base) as u8;
    let b = if d < 10 {
        48 + d
    } else {
        97 + d - 10
    };
    out.push(b);
    assert(final(out)@ =~= old(out)@ + digits_in_base(n as nat, base as nat));
}

/// Writes `value` in `base` into `buffer` as `itoa_spec` describes, then a
/// zero terminator if there is room after it, and returns the number of
/// bytes written before the terminator. The rest of the buffer is left
/// alone.
pub fn itoa(value: i32, buffer: &mut [u8], base: u32) -> (r: usize)
    requires
        2 <= base <= 36,
        value != i32::MIN,
    ensures
        r == itoa_spec(value, old(buffer)@.len(), base as nat).len(),
        final(buffer)@.len() == old(buffer)@.len(),
        final(buffer)@.subrange(0, r as int) == itoa_spec(value, old(buffer)@.len(), base as nat),
        r < old(buffer)@.len() ==> final(buffer)@[r as int] == 0,
        forall|i: int| r < i < old(buffer)@.len() ==> final(buffer)@[i] == old(buffer)@[i],
{
    let len = buffer.len();
    if len == 0 {
        return 0;
    }
    let ghost want = itoa_spec(value, len as nat, base as nat);
    let mut text: std::vec::Vec<u8> = std::vec::Vec::new();
    if value == 0 {
        text.push(48u8);
    } else {
        let mag: u32 = if value < 0 {
            (-value) as u32
        } else {
            value as u32
        };
        let mut d: std::vec::Vec<u8> = std::vec::Vec::new();
        push_digits(&mut d, mag, base);
        assert(d@ =~= digits_in_base(mag as nat, base as nat));
        let k = if d.len() < len - 1 {
            d.len()
        } else {
            len - 1
        };
        if value < 0 && k < len - 1 {
            text.push(45u8);
        }
        let ghost head = text@;
        let mut i: usize = d.len() - k;
        while i < d.len()
            invariant
                d.len() - k <= i <= d.len(),
                k <= d.len(),
                text@ == head + d@.subrange(d.len() - k, i as int),
            decreases d.len() - i,
        {
            text.push(d[i]);
            i = i + 1;
            assert(text@ =~= head + d@.subrange(d.len() - k, i as int));
        }
    }
    assert(text@ =~= want);
    let n = text.len();
    let mut j: usize = 0;
    while j < n
        invariant
            n == text@.len(),
            n <= len,
            buffer@.len() == len,
            len == old(buffer)@.len(),
            0 <= j <= n,
            forall|i: int| 0 <= i < j ==> buffer@[i] == text@[i],
            forall|i: int| j <= i < len ==> buffer@[i] == old(buffer)@[i],
        decreases n - j,
    {
        buffer[j] = text[j];
        j = j + 1;
    }
    if n < len {
        buffer[n] = 0;
    }
    assert(buffer@.subrange(0, n as int) =~= want);
    n
}

/// The tag that opens every diagnostic line.
pub const DEBUG_TAG: &'static str = "[DEBUG] ";

/// A diagnostic line: the tag, the formatted message and a line feed, to be
/// shown in `color`.
pub fn debug_printf(color: Color, format: &str, args: &[PrintfArg]) -> (r: ColoredText)
    ensures
        r.color == color,
        r.text@ == DEBUG_TAG@ + format_from(format@, 0, args@, 0) + seq!['\n'],
{
    let mut text: Vec<char> = Vec::new();
    push_str(&mut text, DEBUG_TAG);
    let mut body = kprintf(format, args);
    text.append(&mut body);
    text.push('\n');
    ColoredText { color, text }
}

/// A diagnostic line in red.
pub fn error_printf(format: &str, args: &[PrintfArg]) -> (r: ColoredText)
    ensures
        r.color == Color::Red,
        r.text@ == DEBUG_TAG@ + format_from(format@, 0, args@, 0) + seq!['\n'],
{
    debug_printf(Color::Red, format, args)
}

/// A diagnostic line in light blue.
pub fn info_printf(format: &str, args: &[PrintfArg]) -> (r: ColoredText)
    ensures
        r.color == Color::LightBlue,
        r.text@ == DEBUG_TAG@ + format_from(format@, 0, args@, 0) + seq!['\n'],
{
    debug_printf(Color::LightBlue, format, args)
}

/// A diagnostic line in yellow.
pub fn warn_printf(format: &str, args: &[PrintfArg]) -> (r: ColoredText)
    ensures
        r.color == Color::Yellow,
        r.text@ == DEBUG_TAG@ + format_from(format@, 0, args@, 0) + seq!['\n'],
{
    debug_printf(Color::Yellow, format, args)
}

/// A diagnostic line in green.
pub fn success_printf(format: &str, args: &[PrintfArg]) -> (r: ColoredText)
    ensures
        r.color == Color::Green,
        r.text@ == DEBUG_TAG@ + format_from(format@, 0, args@, 0) + seq!['\n'],
{
    debug_printf(Color::Green, format, args)
}

} // verus!
