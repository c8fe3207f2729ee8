//! VGA text-mode cells: colours, attribute bytes, and the 16-bit word that a
//! cell occupies in the text buffer.

use vstd::prelude::*;

verus! {

pub const VGA_WIDTH: usize = 80;
pub const VGA_HEIGHT: usize = 25;

/// The sixteen text-mode colours.
#[derive(Clone, Copy, Debug, PartialEq, Eq, Structural)]
pub enum Color {
    Black,
    Blue,
    Green,
    Cyan,
    Red,
    Magenta,
    Brown,
    LightGray,
    DarkGray,
    LightBlue,
    LightGreen,
    LightCyan,
    LightRed,
    LightMagenta,
    Yellow,
    White,
}

/// The palette index of a colour.
pub open spec fn color_index(c: Color) -> u8 {
    match c {
        Color::Black => 0,
        Color::Blue => 1,
        Color::Green => 2,
        Color::Cyan => 3,
        Color::Red => 4,
        Color::Magenta => 5,
        Color::Brown => 6,
        Color::LightGray => 7,
        Color::DarkGray => 8,
        Color::LightBlue => 9,
        Color::LightGreen => 10,
        Color::LightCyan => 11,
        Color::LightRed => 12,
        Color::LightMagenta => 13,
        Color::Yellow => 14,
        Color::White => 15,
    }
}

/// The palette index of a colour.
pub fn color_value(c: Color) -> (r: u8)
    ensures
        r == color_index(c),
        r < 16,
{
    match c {
        Color::Black => 0,
        Color::Blue => 1,
        Color::Green => 2,
        Color::Cyan => 3,
        Color::Red => 4,
        Color::Magenta => 5,
        Color::Brown => 6,
        Color::LightGray => 7,
        Color::DarkGray => 8,
        Color::LightBlue => 9,
        Color::LightGreen => 10,
        Color::LightCyan => 11,
        Color::LightRed => 12,
        Color::LightMagenta => 13,
        Color::Yellow => 14,
        Color::White => 15,
    }
}

/// An attribute byte: background in the high nibble, foreground in the low.
#[derive(Clone, Copy, Debug, PartialEq, Eq, Structural)]
pub struct ColorCode(pub u8);

pub open spec fn color_code_spec(foreground: Color, background: Color) -> ColorCode {
    ColorCode((color_index(background) * 16 + color_index(foreground)) as u8)
}

impl ColorCode {
    /// The attribute for `foreground` text on `background`.
    pub fn new(foreground: Color, background: Color) -> (r: ColorCode)
        ensures
            r == color_code_spec(foreground, background),
    {
        let fg = color_value(foreground);
        let bg = color_value(background);
        assert((bg << 4u8) | fg == bg * 16 + fg) by (bit_vector)
            requires
                fg < 16,
                bg < 16,
        ;
        ColorCode((bg << 4u8) | fg)
    }
}

/// A character and its attribute, as one cell of the text buffer.
#[derive(Clone, Copy, Debug, PartialEq, Eq, Structural)]
pub struct VGAChar {
    pub character: u8,
    pub color_code: ColorCode,
}

/// The buffer word for a cell: attribute in the high byte.
pub open spec fn cell_word(c: VGAChar) -> u16 {
    (c.color_code.0 as int * 256 + c.character as int) as u16
}

/// The cell that a buffer word holds.
pub open spec fn cell_of_word(w: u16) -> VGAChar {
    VGAChar { character: (w % 256) as u8, color_code: ColorCode((w / 256) as u8) }
}

/// The buffer word that stores `c`.
pub fn cell_value(c: VGAChar) -> (r: u16)
    ensures
        r == cell_word(c),
{
    let attr = c.color_code.0 as u16;
    let ch = c.character as u16;
    assert((attr << 8u16) | ch == attr * 256 + ch) by (bit_vector)
        requires
            attr < 256,
            ch < 256,
    ;
    (attr << 8u16) | ch
}

/// The cell stored in buffer word `w`.
pub fn cell_from_value(w: u16) -> (r: VGAChar)
    ensures
        r == cell_of_word(w),
{
    assert(w & 0xFF == w % 256) by (bit_vector);
    assert(w >> 8u16 == w / 256) by (bit_vector);
    VGAChar { character: (w & 0xFF) as u8, color_code: ColorCode((w >> 8u16) as u8) }
}

/// Storing a cell and reading the word back gives the same cell.
pub proof fn lemma_cell_round_trip(c: VGAChar)
    ensures
        cell_of_word(cell_word(c)) == c,
{
}

/// The index in the text buffer of column `x` of row `y`, if on screen.
pub fn cell_index(x: usize, y: usize) -> (r: Option<usize>)
    ensures
        (x < VGA_WIDTH && y < VGA_HEIGHT) ==> r == Some((y * VGA_WIDTH + x) as usize),
        !(x < VGA_WIDTH && y < VGA_HEIGHT) ==> r is None,
{
    if x < VGA_WIDTH && y < VGA_HEIGHT {
        Some(y * VGA_WIDTH + x)
    } else {
        None
    }
}

/// The cell that clearing the screen in `color_code` leaves everywhere.
pub fn blank_cell(color_code: ColorCode) -> (r: VGAChar)
    ensures
        r == (VGAChar { character: 32, color_code }),
{
    VGAChar { character: 32, color_code }
}

} // verus!
