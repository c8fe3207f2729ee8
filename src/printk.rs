//! Coloured kernel messages on the console.

use vstd::prelude::*;
use vstd::string::StringSliceAdditionalSpecFns;
use crate::screen::{TextScreen, Writer, write_all_spec};
use crate::vga::{Color, ColorCode, color_code_spec};

verus! {

/// The console after `s` is written in `color`, the colour set before it
/// restored afterwards.
pub open spec fn colored_write_spec(t: TextScreen, color: ColorCode, s: Seq<u8>) -> TextScreen {
    TextScreen { color: t.color, ..write_all_spec(TextScreen { color, ..t }, s) }
}

/// Writes `s` in `fg` on `bg`, then restores the previous colour.
pub fn printk_color(writer: &mut Writer, fg: Color, bg: Color, s: &str)
    requires
        old(writer).wf(),
    ensures
        final(writer).wf(),
        final(writer)@ == colored_write_spec(old(writer)@, color_code_spec(fg, bg), s.spec_bytes()),
        final(writer).same_saved(old(writer)),
{
    let ghost w0 = *writer;
    let current = writer.get_color();
    writer.set_color(ColorCode::new(fg, bg));
    let ghost w1 = *writer;
    writer.write_string(s);
    let ghost w2 = *writer;
    writer.set_color(current);
    proof {
        Writer::lemma_same_saved_trans(&w2, &w1, &w0);
        Writer::lemma_same_saved_trans(writer, &w2, &w0);
    }
}

/// Writes an error message: white on red.
pub fn print_error(writer: &mut Writer, s: &str)
    requires
        old(writer).wf(),
    ensures
        final(writer).wf(),
        final(writer)@ == colored_write_spec(
            old(writer)@,
            color_code_spec(Color::White, Color::Red),
            s.spec_bytes(),
        ),
        final(writer).same_saved(old(writer)),
{
    printk_color(writer, Color::White, Color::Red, s);
}

/// Writes a warning: black on yellow.
pub fn print_warning(writer: &mut Writer, s: &str)
    requires
        old(writer).wf(),
    ensures
        final(writer).wf(),
        final(writer)@ == colored_write_spec(
            old(writer)@,
            color_code_spec(Color::Black, Color::Yellow),
            s.spec_bytes(),
        ),
        final(writer).same_saved(old(writer)),
{
    printk_color(writer, Color::Black, Color::Yellow, s);
}

} // verus!
