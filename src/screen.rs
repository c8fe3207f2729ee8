//! The text console: a model of the 80x25 text buffer with its cursor,
//! colour, scrolling, and the virtual screens it can switch between. The
//! cells are plain data; putting them on the hardware is left to the caller.

use vstd::prelude::*;
pub use crate::vga::{Color, ColorCode};
use crate::vga::color_code_spec;
use vstd::string::StringSliceAdditionalSpecFns;

verus! {

pub const MAX_SCREEN: usize = 4;
pub const VGA_BUFFER_HEIGHT: usize = 25;
pub const VGA_BUFFER_WIDTH: usize = 80;

/// Cells on one screen.
pub const CELLS: usize = 2000;

/// The byte shown in place of one that is not printable.
pub const REPLACEMENT_BYTE: u8 = 0xfe;

/// One cell: a byte and its colour.
#[derive(Clone, Copy, Debug, PartialEq, Eq, Structural)]
pub struct ScreenChar {
    pub ascii_character: u8,
    pub color_code: ColorCode,
}

/// What one screen shows, where its cursor is and the colour it writes in.
pub struct TextScreen {
    pub cells: Seq<ScreenChar>,
    pub row: nat,
    pub col: nat,
    pub color: ColorCode,
}

pub open spec fn text_wf(t: TextScreen) -> bool {
    t.cells.len() == CELLS && t.row < VGA_BUFFER_HEIGHT && t.col <= VGA_BUFFER_WIDTH
}

pub open spec fn blank(color: ColorCode) -> ScreenChar {
    ScreenChar { ascii_character: 32, color_code: color }
}

/// `cells` with row `row` set to `c`.
pub open spec fn fill_row_cells(cells: Seq<ScreenChar>, row: nat, c: ScreenChar) -> Seq<ScreenChar> {
    Seq::new(
        cells.len(),
        |i: int|
            if row * VGA_BUFFER_WIDTH <= i < row * VGA_BUFFER_WIDTH + VGA_BUFFER_WIDTH {
                c
            } else {
                cells[i]
            },
    )
}

/// `cells` moved up one row; the last row keeps its old content.
pub open spec fn shift_up_cells(cells: Seq<ScreenChar>) -> Seq<ScreenChar> {
    Seq::new(
        cells.len(),
        |i: int|
            if i < CELLS - VGA_BUFFER_WIDTH {
                cells[i + VGA_BUFFER_WIDTH]
            } else {
                cells[i]
            },
    )
}

/// Row `row` blanked in the screen's colour.
pub open spec fn clear_row_spec(t: TextScreen, row: nat) -> TextScreen {
    TextScreen { cells: fill_row_cells(t.cells, row, blank(t.color)), ..t }
}

/// A line feed: down one row, or, on the last row, scroll everything up and
/// blank the last row.
pub open spec fn new_line_spec(t: TextScreen) -> TextScreen {
    if t.row < VGA_BUFFER_HEIGHT - 1 {
        TextScreen { row: t.row + 1, col: 0, ..t }
    } else {
        TextScreen {
            cells: fill_row_cells(
                shift_up_cells(t.cells),
                (VGA_BUFFER_HEIGHT - 1) as nat,
                blank(t.color),
            ),
            col: 0,
            ..t
        }
    }
}

/// A backspace: back one column, to the end of the row above at the start
/// of a row, and blank the cell reached.
pub open spec fn backspace_spec(t: TextScreen) -> TextScreen {
    if t.col > 0 {
        TextScreen {
            cells: t.cells.update(t.row * VGA_BUFFER_WIDTH + t.col - 1, blank(t.color)),
            col: (t.col - 1) as nat,
            ..t
        }
    } else if t.row > 0 {
        TextScreen {
            cells: t.cells.update(
                (t.row - 1) * VGA_BUFFER_WIDTH + VGA_BUFFER_WIDTH - 1,
                blank(t.color),
            ),
            row: (t.row - 1) as nat,
            col: (VGA_BUFFER_WIDTH - 1) as nat,
            ..t
        }
    } else {
        t
    }
}

/// A byte stored at the cursor, after a line feed if the row is full.
pub open spec fn put_spec(t: TextScreen, b: u8) -> TextScreen {
    let u = if t.col >= VGA_BUFFER_WIDTH {
        new_line_spec(t)
    } else {
        t
    };
    TextScreen {
        cells: u.cells.update(
            u.row * VGA_BUFFER_WIDTH + u.col,
            ScreenChar { ascii_character: b, color_code: u.color },
        ),
        col: u.col + 1,
        ..u
    }
}

/// One byte written: line feed, carriage return, tab (four spaces) and
/// backspace act; any other byte is stored.
pub open spec fn write_byte_spec(t: TextScreen, b: u8) -> TextScreen {
    if b == 10 {
        new_line_spec(t)
    } else if b == 13 {
        TextScreen { col: 0, ..t }
    } else if b == 9 {
        put_spec(put_spec(put_spec(put_spec(t, 32), 32), 32), 32)
    } else if b == 8 {
        backspace_spec(t)
    } else {
        put_spec(t, b)
    }
}

/// The byte that a string write passes on: printable ASCII and the control
/// bytes the console acts on stay, anything else becomes the replacement.
pub open spec fn shown_byte(b: u8) -> u8 {
    if (0x20 <= b && b <= 0x7e) || b == 10 || b == 13 || b == 9 || b == 8 {
        b
    } else {
        REPLACEMENT_BYTE
    }
}

/// The screen after a string's bytes are written in turn.
pub open spec fn write_all_spec(t: TextScreen, bytes: Seq<u8>) -> TextScreen
    decreases bytes.len(),
{
    if bytes.len() == 0 {
        t
    } else {
        write_byte_spec(write_all_spec(t, bytes.drop_last()), shown_byte(bytes.last()))
    }
}

/// A blank screen with the cursor home.
pub open spec fn blank_screen(color: ColorCode) -> TextScreen {
    TextScreen { cells: Seq::new(CELLS as nat, |i: int| blank(color)), row: 0, col: 0, color }
}

/// Sets every cell of row `row` to `c`.
fn fill_row(buf: &mut Vec<ScreenChar>, row: usize, c: ScreenChar)
    requires
        old(buf)@.len() == CELLS,
        row < VGA_BUFFER_HEIGHT,
    ensures
        final(buf)@ == fill_row_cells(old(buf)@, row as nat, c),
{
    let ghost start = buf@;
    let mut col: usize = 0;
    while col < VGA_BUFFER_WIDTH
        invariant
            buf@.len() == CELLS,
            row < VGA_BUFFER_HEIGHT,
            0 <= col <= VGA_BUFFER_WIDTH,
            forall|i: int|
                0 <= i < CELLS ==> #[trigger] buf@[i] == (if row * VGA_BUFFER_WIDTH <= i < row
                    * VGA_BUFFER_WIDTH + col {
                    c
                } else {
                    start[i]
                }),
        decreases VGA_BUFFER_WIDTH - col,
    {
        buf.set(row * VGA_BUFFER_WIDTH + col, c);
        col = col + 1;
    }
    assert(buf@ =~= fill_row_cells(start, row as nat, c));
}

/// Moves every row up by one; the last row is left as it was.
fn shift_up(buf: &mut Vec<ScreenChar>)
    requires
        old(buf)@.len() == CELLS,
    ensures
        final(buf)@ == shift_up_cells(old(buf)@),
{
    let ghost start = buf@;
    let mut i: usize = 0;
    while i < CELLS - VGA_BUFFER_WIDTH
        invariant
            buf@.len() == CELLS,
            0 <= i <= CELLS - VGA_BUFFER_WIDTH,
            forall|j: int|
                0 <= j < CELLS ==> #[trigger] buf@[j] == (if j < i {
                    start[j + VGA_BUFFER_WIDTH]
                } else {
                    start[j]
                }),
        decreases CELLS - VGA_BUFFER_WIDTH - i,
    {
        let c = buf[i + VGA_BUFFER_WIDTH];
        buf.set(i, c);
        i = i + 1;
    }
    assert(buf@ =~= shift_up_cells(start));
}

/// The console: the screen on display, the saved contents of every virtual
/// screen, and the hardware cursor's shape.
pub struct Writer {
    saved: Vec<ScreenChar>,
    saved_rows: Vec<usize>,
    saved_cols: Vec<usize>,
    saved_colors: Vec<ColorCode>,
    current_screen_id: usize,
    column_position: usize,
    row_position: usize,
    color_code: ColorCode,
    buffer: Vec<ScreenChar>,
    cursor_enabled: bool,
    cursor_start: u8,
    cursor_end: u8,
}

impl View for Writer {
    type V = TextScreen;

    closed spec fn view(&self) -> TextScreen {
        TextScreen {
            cells: self.buffer@,
            row: self.row_position as nat,
            col: self.column_position as nat,
            color: self.color_code,
        }
    }
}

impl Writer {
    pub closed spec fn wf(&self) -> bool {
        &&& text_wf(self@)
        &&& self.saved@.len() == MAX_SCREEN * CELLS
        &&& self.saved_rows@.len() == MAX_SCREEN
        &&& self.saved_cols@.len() == MAX_SCREEN
        &&& self.saved_colors@.len() == MAX_SCREEN
        &&& self.current_screen_id < MAX_SCREEN
        &&& forall|k: int| 0 <= k < MAX_SCREEN ==> #[trigger] self.saved_rows@[k] < VGA_BUFFER_HEIGHT
        &&& forall|k: int| 0 <= k < MAX_SCREEN ==> #[trigger] self.saved_cols@[k] <= VGA_BUFFER_WIDTH
    }

    /// The saved contents of virtual screen `k`, as of the last switch away
    /// from it.
    pub closed spec fn saved_screen(&self, k: nat) -> TextScreen {
        TextScreen {
            cells: self.saved@.subrange((k * CELLS) as int, (k * CELLS + CELLS) as int),
            row: self.saved_rows@[k as int] as nat,
            col: self.saved_cols@[k as int] as nat,
            color: self.saved_colors@[k as int],
        }
    }

    pub closed spec fn screen_id(&self) -> nat {
        self.current_screen_id as nat
    }

    /// Whether the cursor is shown, and its first and last scan lines.
    pub closed spec fn cursor_shape(&self) -> (bool, u8, u8) {
        (self.cursor_enabled, self.cursor_start, self.cursor_end)
    }

    /// Everything but the screen on display is as in `other`.
    pub closed spec fn same_saved(&self, other: &Writer) -> bool {
        &&& self.saved@ == other.saved@
        &&& self.saved_rows@ == other.saved_rows@
        &&& self.saved_cols@ == other.saved_cols@
        &&& self.saved_colors@ == other.saved_colors@
        &&& self.current_screen_id == other.current_screen_id
        &&& self.cursor_enabled == other.cursor_enabled
        &&& self.cursor_start == other.cursor_start
        &&& self.cursor_end == other.cursor_end
    }

    /// Keeping the saved screens is transitive.
    pub proof fn lemma_same_saved_trans(a: &Writer, b: &Writer, c: &Writer)
        requires
            a.same_saved(b),
            b.same_saved(c),
        ensures
            a.same_saved(c),
    {
    }

    /// A console on screen 0, every screen blank in white on black, with the
    /// cursor shown on scan lines 14 to 15.
    pub fn new() -> (r: Writer)
        ensures
            r.wf(),
            r@ == blank_screen(color_code_spec(Color::White, Color::Black)),
            r.screen_id() == 0,
            forall|k: nat| k < MAX_SCREEN ==> #[trigger] r.saved_screen(k) == blank_screen(
                color_code_spec(Color::White, Color::Black),
            ),
            r.cursor_shape() == (true, 14u8, 15u8),
    {
        let color = ColorCode::new(Color::White, Color::Black);
        let cell = ScreenChar { ascii_character: 32, color_code: color };
        let r = Writer {
            saved: vec![cell; MAX_SCREEN * CELLS],
            saved_rows: vec![0usize; MAX_SCREEN],
            saved_cols: vec![0usize; MAX_SCREEN],
            saved_colors: vec![color; MAX_SCREEN],
            current_screen_id: 0,
            column_position: 0,
            row_position: 0,
            color_code: color,
            buffer: vec![cell; CELLS],
            cursor_enabled: true,
            cursor_start: 14,
            cursor_end: 15,
        };
        assert(r@.cells =~= blank_screen(color).cells);
        assert forall|k: nat| k < MAX_SCREEN implies #[trigger] r.saved_screen(k) == blank_screen(
            color,
        ) by {
            assert(r.saved_screen(k).cells =~= blank_screen(color).cells);
        }
        r
    }

    /// Blanks row `row` in the current colour.
    pub fn clear_row(&mut self, row: usize)
        requires
            old(self).wf(),
            row < VGA_BUFFER_HEIGHT,
        ensures
            final(self).wf(),
            final(self)@ == clear_row_spec(old(self)@, row as nat),
            final(self).same_saved(old(self)),
    {
        let c = ScreenChar { ascii_character: 32, color_code: self.color_code };
        fill_row(&mut self.buffer, row, c);
    }

    /// Moves to the start of the next row, scrolling at the bottom.
    pub fn new_line(&mut self)
        requires
            old(self).wf(),
        ensures
            final(self).wf(),
            final(self)@ == new_line_spec(old(self)@),
            final(self).same_saved(old(self)),
    {
        if self.row_position < VGA_BUFFER_HEIGHT - 1 {
            self.row_position = self.row_position + 1;
            self.column_position = 0;
        } else {
            shift_up(&mut self.buffer);
            self.clear_row(VGA_BUFFER_HEIGHT - 1);
            self.column_position = 0;
        }
    }

    /// Steps back one cell and blanks it.
    pub fn backspace(&mut self)
        requires
            old(self).wf(),
        ensures
            final(self).wf(),
            final(self)@ == backspace_spec(old(self)@),
            final(self).same_saved(old(self)),
    {
        let blank_char = ScreenChar { ascii_character: 32, color_code: self.color_code };
        if self.column_position > 0 {
            self.column_position = self.column_position - 1;
            self.buffer.set(self.row_position * VGA_BUFFER_WIDTH + self.column_position, blank_char);
        } else if self.row_position > 0 {
            self.row_position = self.row_position - 1;
            self.column_position = VGA_BUFFER_WIDTH - 1;
            self.buffer.set(self.row_position * VGA_BUFFER_WIDTH + self.column_position, blank_char);
        }
    }

    /// Stores a byte at the cursor and advances it.
    fn put(&mut self, byte: u8)
        requires
            old(self).wf(),
        ensures
            final(self).wf(),
            final(self)@ == put_spec(old(self)@, byte),
            final(self).same_saved(old(self)),
    {
        if self.column_position >= VGA_BUFFER_WIDTH {
            self.new_line();
        }
        let c = ScreenChar { ascii_character: byte, color_code: self.color_code };
        self.buffer.set(self.row_position * VGA_BUFFER_WIDTH + self.column_position, c);
        self.column_position = self.column_position + 1;
    }

    /// Writes one byte: line feed, carriage return, tab and backspace act on
    /// the cursor, any other byte is shown.
    pub fn write_byte(&mut self, byte: u8)
        requires
            old(self).wf(),
        ensures
            final(self).wf(),
            final(self)@ == write_byte_spec(old(self)@, byte),
            final(self).same_saved(old(self)),
    {
        if byte == 10 {
            self.new_line();
        } else if byte == 13 {
            self.column_position = 0;
        } else if byte == 9 {
            self.put(32);
            self.put(32);
            self.put(32);
            self.put(32);
        } else if byte == 8 {
            self.backspace();
        } else {
            self.put(byte);
        }
    }

    /// Writes the bytes of `s`, each byte that is neither printable ASCII nor
    /// an acted-on control byte shown as the replacement byte.
    pub fn write_string(&mut self, s: &str)
        requires
            old(self).wf(),
        ensures
            final(self).wf(),
            final(self)@ == write_all_spec(old(self)@, s.spec_bytes()),
            final(self).same_saved(old(self)),
    {
        let bytes = s.as_bytes();
        let ghost start = self@;
        let mut i: usize = 0;
        while i < bytes.len()
            invariant
                self.wf(),
                self.same_saved(old(self)),
                bytes@ == s.spec_bytes(),
                0 <= i <= bytes@.len(),
                self@ == write_all_spec(start, bytes@.take(i as int)),
            decreases bytes@.len() - i,
        {
            let b = bytes[i];
            let shown = if (0x20 <= b && b <= 0x7e) || b == 10 || b == 13 || b == 9 || b == 8 {
                b
            } else {
                REPLACEMENT_BYTE
            };
            assert(bytes@.take(i as int + 1).drop_last() =~= bytes@.take(i as int));
            self.write_byte(shown);
            i = i + 1;
        }
        assert(bytes@.take(bytes@.len() as int) =~= bytes@);
    }

    /// Blanks the whole screen and moves the cursor home.
    pub fn clear_screen(&mut self)
        requires
            old(self).wf(),
        ensures
            final(self).wf(),
            final(self)@ == blank_screen(old(self)@.color),
            final(self).same_saved(old(self)),
    {
        let c = ScreenChar { ascii_character: 32, color_code: self.color_code };
        let mut row: usize = 0;
        while row < VGA_BUFFER_HEIGHT
            invariant
                self.wf(),
                self.same_saved(old(self)),
                self.color_code == old(self).color_code,
                c == blank(self.color_code),
                self.row_position == old(self).row_position,
                self.column_position == old(self).column_position,
                0 <= row <= VGA_BUFFER_HEIGHT,
                forall|i: int| 0 <= i < row * VGA_BUFFER_WIDTH ==> #[trigger] self.buffer@[i] == c,
            decreases VGA_BUFFER_HEIGHT - row,
        {
            fill_row(&mut self.buffer, row, c);
            row = row + 1;
        }
        self.row_position = 0;
        self.column_position = 0;
        assert(self@.cells =~= blank_screen(old(self)@.color).cells);
    }

    /// The colour of what is written next.
    pub fn set_color(&mut self, color_code: ColorCode)
        requires
            old(self).wf(),
        ensures
            final(self).wf(),
            final(self)@ == (TextScreen { color: color_code, ..old(self)@ }),
            final(self).same_saved(old(self)),
    {
        self.color_code = color_code;
    }

    /// The colour of what is written next.
    pub fn get_color(&self) -> (r: ColorCode)
        ensures
            r == self@.color,
    {
        self.color_code
    }

    /// Shows the cursor on scan lines `cursor_start` to `cursor_end`.
    pub fn enable_cursor(&mut self, cursor_start: u8, cursor_end: u8)
        ensures
            final(self)@ == old(self)@,
            final(self).cursor_shape() == (true, cursor_start, cursor_end),
            final(self).wf() == old(self).wf(),
            final(self).screen_id() == old(self).screen_id(),
            forall|k: nat| #[trigger] final(self).saved_screen(k) == old(self).saved_screen(k),
    {
        self.cursor_enabled = true;
        self.cursor_start = cursor_start;
        self.cursor_end = cursor_end;
    }

    /// Hides the cursor.
    pub fn disable_cursor(&mut self)
        ensures
            final(self)@ == old(self)@,
            final(self).cursor_shape() == (false, old(self).cursor_shape().1, old(self).cursor_shape().2),
            final(self).wf() == old(self).wf(),
            final(self).screen_id() == old(self).screen_id(),
            forall|k: nat| #[trigger] final(self).saved_screen(k) == old(self).saved_screen(k),
    {
        self.cursor_enabled = false;
    }

    /// The cursor's linear position: row times the width, plus the column.
    pub fn get_cursor_position(&self) -> (r: u16)
        requires
            self.wf(),
        ensures
            r == self@.row * VGA_BUFFER_WIDTH + self@.col,
    {
        (self.row_position * VGA_BUFFER_WIDTH + self.column_position) as u16
    }

    /// Whether the cursor is shown, and its first and last scan lines.
    pub fn cursor(&self) -> (r: (bool, u8, u8))
        ensures
            r == self.cursor_shape(),
    {
        (self.cursor_enabled, self.cursor_start, self.cursor_end)
    }

    /// The cell at linear position `i` of the screen on display.
    pub fn cell(&self, i: usize) -> (r: ScreenChar)
        requires
            self.wf(),
            i < CELLS,
        ensures
            r == self@.cells[i as int],
    {
        self.buffer[i]
    }

    /// The index of the virtual screen on display.
    pub fn current_screen(&self) -> (r: usize)
        ensures
            r == self.screen_id(),
    {
        self.current_screen_id
    }

    /// Saves the screen on display into the slot of the active virtual
    /// screen, then brings up virtual screen `screen_id`: its cells, cursor
    /// row and colour, with that row blanked and the cursor at its start.
    pub fn switch_to_screen(&mut self, screen_id: usize)
        requires
            old(self).wf(),
            screen_id < MAX_SCREEN,
        ensures
            final(self).wf(),
            final(self).screen_id() == screen_id,
            final(self).saved_screen(old(self).screen_id()) == old(self)@,
            forall|k: nat|
                k < MAX_SCREEN && k != old(self).screen_id() ==> #[trigger] final(self).saved_screen(k) == old(self).saved_screen(k),
            ({
                let loaded = if screen_id == old(self).screen_id() {
                    old(self)@
                } else {
                    old(self).saved_screen(screen_id as nat)
                };
                final(self)@ == TextScreen { col: 0, ..clear_row_spec(loaded, loaded.row) }
            }),
            final(self).cursor_shape() == old(self).cursor_shape(),
    {
        let cur = self.current_screen_id;
        let base = cur * CELLS;
        let ghost before = *self;
        let mut i: usize = 0;
        while i < CELLS
            invariant
                before.wf(),
                cur == before.current_screen_id,
                base == cur * CELLS,
                self.buffer@ == before.buffer@,
                self.saved_rows@ == before.saved_rows@,
                self.saved_cols@ == before.saved_cols@,
                self.saved_colors@ == before.saved_colors@,
                self.row_position == before.row_position,
                self.column_position == before.column_position,
                self.color_code == before.color_code,
                self.current_screen_id == before.current_screen_id,
                self.cursor_enabled == before.cursor_enabled,
                self.cursor_start == before.cursor_start,
                self.cursor_end == before.cursor_end,
                self.saved@.len() == MAX_SCREEN * CELLS,
                0 <= i <= CELLS,
                forall|j: int|
                    0 <= j < MAX_SCREEN * CELLS ==> #[trigger] self.saved@[j] == (if base <= j
                        < base + i {
                        before.buffer@[j - base]
                    } else {
                        before.saved@[j]
                    }),
            decreases CELLS - i,
        {
            let c = self.buffer[i];
            self.saved.set(base + i, c);
            i = i + 1;
        }
        self.saved_rows.set(cur, self.row_position);
        self.saved_cols.set(cur, self.column_position);
        self.saved_colors.set(cur, self.color_code);
        self.current_screen_id = screen_id;
        proof {
            assert(self.saved@.subrange(base as int, base + CELLS) =~= before.buffer@);
            assert forall|k: nat| k < MAX_SCREEN && k != cur implies #[trigger] self.saved_screen(k)
                == before.saved_screen(k) by {
                assert(self.saved@.subrange((k * CELLS) as int, (k * CELLS + CELLS) as int)
                    =~= before.saved@.subrange((k * CELLS) as int, (k * CELLS + CELLS) as int));
            }
        }
        let ghost stored = *self;
        let load = screen_id * CELLS;
        let mut i: usize = 0;
        while i < CELLS
            invariant
                stored.wf(),
                self.saved@ == stored.saved@,
                self.saved_rows@ == stored.saved_rows@,
                self.saved_cols@ == stored.saved_cols@,
                self.saved_colors@ == stored.saved_colors@,
                self.row_position == stored.row_position,
                self.column_position == stored.column_position,
                self.color_code == stored.color_code,
                self.current_screen_id == stored.current_screen_id,
                self.cursor_enabled == stored.cursor_enabled,
                self.cursor_start == stored.cursor_start,
                self.cursor_end == stored.cursor_end,
                self.buffer@.len() == CELLS,
                load == screen_id * CELLS,
                screen_id < MAX_SCREEN,
                0 <= i <= CELLS,
                forall|j: int|
                    0 <= j < CELLS ==> #[trigger] self.buffer@[j] == (if j < i {
                        stored.saved@[load + j]
                    } else {
                        stored.buffer@[j]
                    }),
            decreases CELLS - i,
        {
            let c = self.saved[load + i];
            self.buffer.set(i, c);
            i = i + 1;
        }
        assert(self.buffer@ =~= stored.saved_screen(screen_id as nat).cells);
        self.row_position = self.saved_rows[screen_id];
        self.column_position = self.saved_cols[screen_id];
        self.color_code = self.saved_colors[screen_id];
        let row = self.row_position;
        self.clear_row(row);
        self.column_position = 0;
        assert forall|k: nat| k < MAX_SCREEN && k != cur implies #[trigger] self.saved_screen(k)
            == before.saved_screen(k) by {
            assert(stored.saved_screen(k) == before.saved_screen(k));
        }
        assert(self.saved_screen(cur as nat) == stored.saved_screen(cur as nat));
    }
}

/// Brings virtual screen `screen_id` up on `writer`; see
/// `Writer::switch_to_screen`.
pub fn switch_to_screen(writer: &mut Writer, screen_id: usize)
    requires
        old(writer).wf(),
        screen_id < MAX_SCREEN,
    ensures
        final(writer).wf(),
        final(writer).screen_id() == screen_id,
        final(writer).saved_screen(old(writer).screen_id()) == old(writer)@,
        forall|k: nat|
            k < MAX_SCREEN && k != old(writer).screen_id() ==> #[trigger] final(writer).saved_screen(k)
                == old(writer).saved_screen(k),
        ({
            let loaded = if screen_id == old(writer).screen_id() {
                old(writer)@
            } else {
                old(writer).saved_screen(screen_id as nat)
            };
            final(writer)@ == TextScreen { col: 0, ..clear_row_spec(loaded, loaded.row) }
        }),
{
    writer.switch_to_screen(screen_id);
}

/// Blanks the screen on display and moves the cursor home.
pub fn clear_screen(writer: &mut Writer)
    requires
        old(writer).wf(),
    ensures
        final(writer).wf(),
        final(writer)@ == blank_screen(old(writer)@.color),
        final(writer).same_saved(old(writer)),
{
    writer.clear_screen();
}

/// Changes the colour of what is written next.
pub fn change_color_code(writer: &mut Writer, color_code: ColorCode)
    requires
        old(writer).wf(),
    ensures
        final(writer).wf(),
        final(writer)@ == (TextScreen { color: color_code, ..old(writer)@ }),
        final(writer).same_saved(old(writer)),
{
    writer.set_color(color_code);
}

/// Shows the cursor with the usual shape, scan lines 14 to 15.
pub fn enable_cursor(writer: &mut Writer)
    ensures
        final(writer)@ == old(writer)@,
        final(writer).cursor_shape() == (true, 14u8, 15u8),
        final(writer).wf() == old(writer).wf(),
{
    writer.enable_cursor(14, 15);
}

/// Shows the cursor on scan lines `start` to `end`.
pub fn enable_cursor_custom(writer: &mut Writer, start: u8, end: u8)
    ensures
        final(writer)@ == old(writer)@,
        final(writer).cursor_shape() == (true, start, end),
        final(writer).wf() == old(writer).wf(),
{
    writer.enable_cursor(start, end);
}

/// Hides the cursor.
pub fn disable_cursor(writer: &mut Writer)
    ensures
        final(writer)@ == old(writer)@,
        !final(writer).cursor_shape().0,
        final(writer).wf() == old(writer).wf(),
{
    writer.disable_cursor();
}

/// The cursor's linear position on `writer`.
pub fn get_cursor_position(writer: &Writer) -> (r: u16)
    requires
        writer.wf(),
    ensures
        r == writer@.row * VGA_BUFFER_WIDTH + writer@.col,
{
    writer.get_cursor_position()
}

} // verus!
