use kfs::printk::{print_error, print_warning, printk_color};
use kfs::screen::{
    clear_screen, change_color_code, disable_cursor, enable_cursor, enable_cursor_custom,
    get_cursor_position, switch_to_screen, Color, ColorCode, ScreenChar, Writer, CELLS,
    VGA_BUFFER_WIDTH,
};
use kfs::vga::{blank_cell, cell_from_value, cell_index, cell_value, color_value, VGAChar};

fn row_text(w: &Writer, row: usize) -> String {
    (0..VGA_BUFFER_WIDTH)
        .map(|c| w.cell(row * VGA_BUFFER_WIDTH + c).ascii_character as char)
        .collect::<String>()
        .trim_end()
        .to_string()
}

#[test]
fn color_code_packs_background_high() {
    assert_eq!(ColorCode::new(Color::White, Color::Black), ColorCode(0x0F));
    assert_eq!(ColorCode::new(Color::White, Color::Red), ColorCode(0x4F));
    assert_eq!(ColorCode::new(Color::Black, Color::LightGray), ColorCode(0x70));
    assert_eq!(ColorCode::new(Color::Cyan, Color::Blue), ColorCode(0x13));
    assert_eq!(color_value(Color::LightMagenta), 13);
}

#[test]
fn vga_cell_word_round_trip() {
    let c = VGAChar { character: b'A', color_code: ColorCode(0x1F) };
    assert_eq!(cell_value(c), 0x1F41);
    assert_eq!(cell_from_value(0x1F41), c);
    assert_eq!(cell_index(79, 24), Some(1999));
    assert_eq!(cell_index(80, 0), None);
    assert_eq!(cell_index(0, 25), None);
    assert_eq!(blank_cell(ColorCode(7)).character, b' ');
}

#[test]
fn writer_writes_and_wraps() {
    let mut w = Writer::new();
    w.write_string("hello\nworld");
    assert_eq!(row_text(&w, 0), "hello");
    assert_eq!(row_text(&w, 1), "world");
    assert_eq!(w.get_cursor_position(), 85);
    let long: String = std::iter::repeat('a').take(81).collect();
    w.write_string("\n");
    w.write_string(&long);
    assert_eq!(row_text(&w, 2).len(), 80);
    assert_eq!(row_text(&w, 3), "a");
}

#[test]
fn writer_tab_backspace_and_replacement() {
    let mut w = Writer::new();
    w.write_string("a\tb");
    assert_eq!(row_text(&w, 0), "a    b");
    w.write_byte(8);
    assert_eq!(row_text(&w, 0), "a");
    assert_eq!(w.get_cursor_position(), 5);
    w.write_string("\u{e9}");
    assert_eq!(w.cell(5).ascii_character, 0xfe);
    assert_eq!(w.cell(6).ascii_character, 0xfe);
    w.write_string("\rX");
    assert_eq!(w.cell(0).ascii_character, b'X');
}

#[test]
fn backspace_at_line_start_goes_up() {
    let mut w = Writer::new();
    w.write_string("ab\n");
    w.backspace();
    assert_eq!(w.get_cursor_position(), 79);
    w.clear_screen();
    w.backspace();
    assert_eq!(w.get_cursor_position(), 0);
}

#[test]
fn writer_scrolls_at_bottom() {
    let mut w = Writer::new();
    for i in 0..25 {
        w.write_string(&format!("line{}\n", i));
    }
    assert_eq!(row_text(&w, 0), "line1");
    assert_eq!(row_text(&w, 23), "line24");
    assert_eq!(row_text(&w, 24), "");
    assert_eq!(get_cursor_position(&w), 24 * 80);
}

#[test]
fn clear_and_colors() {
    let mut w = Writer::new();
    w.write_string("junk");
    change_color_code(&mut w, ColorCode(0x2F));
    w.write_string("!");
    assert_eq!(w.cell(4), ScreenChar { ascii_character: b'!', color_code: ColorCode(0x2F) });
    clear_screen(&mut w);
    assert_eq!(get_cursor_position(&w), 0);
    for i in 0..CELLS {
        assert_eq!(w.cell(i), ScreenChar { ascii_character: b' ', color_code: ColorCode(0x2F) });
    }
}

#[test]
fn virtual_screens_keep_their_contents() {
    let mut w = Writer::new();
    w.write_string("first screen");
    switch_to_screen(&mut w, 2);
    assert_eq!(w.current_screen(), 2);
    assert_eq!(row_text(&w, 0), "");
    w.write_string("third");
    switch_to_screen(&mut w, 0);
    assert_eq!(row_text(&w, 0), "");
    assert_eq!(get_cursor_position(&w), 0);
    w.write_string("x\nsecond row");
    switch_to_screen(&mut w, 2);
    switch_to_screen(&mut w, 0);
    assert_eq!(row_text(&w, 0), "x");
    assert_eq!(row_text(&w, 1), "");
    assert_eq!(get_cursor_position(&w), 80);
}

#[test]
fn cursor_shape() {
    let mut w = Writer::new();
    assert_eq!(w.cursor(), (true, 14, 15));
    disable_cursor(&mut w);
    assert_eq!(w.cursor().0, false);
    enable_cursor_custom(&mut w, 0, 15);
    assert_eq!(w.cursor(), (true, 0, 15));
    enable_cursor(&mut w);
    assert_eq!(w.cursor(), (true, 14, 15));
}

#[test]
fn printk_restores_color() {
    let mut w = Writer::new();
    print_error(&mut w, "E");
    print_warning(&mut w, "W");
    printk_color(&mut w, Color::Green, Color::Black, "G");
    assert_eq!(w.cell(0).color_code, ColorCode(0x4F));
    assert_eq!(w.cell(1).color_code, ColorCode(0xE0));
    assert_eq!(w.cell(2).color_code, ColorCode(0x02));
    assert_eq!(w.get_color(), ColorCode(0x0F));
    w.write_string("n");
    assert_eq!(w.cell(3).color_code, ColorCode(0x0F));
}
