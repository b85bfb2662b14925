use blue_crab_os::output::OutputDevice;
use blue_crab_os::vga_buffer::{
    Color, ColorCode, ScreenChar, Writer, BUFFER_HEIGHT, BUFFER_WIDTH, FALLBACK_GLYPH,
};

fn row_bytes(w: &Writer, row: usize) -> Vec<u8> {
    let mut out: Vec<u8> = Vec::new();
    for c in 0..BUFFER_WIDTH {
        out.push(w.cell(row, c).ascii_character);
    }
    while out.last() == Some(&b' ') {
        out.pop();
    }
    out
}

#[test]
fn new_writer_is_blank() {
    let w = Writer::new(ColorCode::new(Color::White, Color::Blue));
    assert_eq!(w.column_position(), 0);
    for r in 0..BUFFER_HEIGHT {
        for c in 0..BUFFER_WIDTH {
            assert_eq!(
                w.cell(r, c),
                ScreenChar { ascii_character: b' ', color_code: ColorCode(0x1f) }
            );
        }
    }
}

#[test]
fn color_code_packs_background_high() {
    assert_eq!(ColorCode::new(Color::White, Color::Blue), ColorCode(0x1f));
    assert_eq!(ColorCode::new(Color::Yellow, Color::Black), ColorCode(0x0e));
    assert_eq!(ColorCode::new(Color::Black, Color::White), ColorCode(0xf0));
    assert_eq!(Color::Pink.index(), 13);
}

#[test]
fn scrolled_screen_shows_last_lines_in_order() {
    let mut dev = OutputDevice::with_default_color();
    for i in 0..30 {
        assert!(dev.write_str(&format!("line {}\n", i)));
    }
    let w = dev.writer();
    for r in 0..BUFFER_HEIGHT - 1 {
        assert_eq!(row_bytes(w, r), format!("line {}", r + 6).into_bytes());
    }
    assert_eq!(row_bytes(w, BUFFER_HEIGHT - 1), Vec::<u8>::new());
    assert_eq!(w.column_position(), 0);
}

#[test]
fn full_row_wraps_like_a_newline() {
    let mut w = Writer::new(ColorCode::new(Color::Yellow, Color::Black));
    let text = vec![b'a'; BUFFER_WIDTH + 5];
    w.write_bytes(&text);
    assert_eq!(row_bytes(&w, BUFFER_HEIGHT - 2), vec![b'a'; BUFFER_WIDTH]);
    assert_eq!(row_bytes(&w, BUFFER_HEIGHT - 1), vec![b'a'; 5]);
    assert_eq!(w.column_position(), 5);
    assert_eq!(row_bytes(&w, BUFFER_HEIGHT - 3), Vec::<u8>::new());
}

#[test]
fn exactly_full_row_moves_cursor_to_next_row() {
    let mut w = Writer::new(ColorCode::new(Color::Yellow, Color::Black));
    w.write_bytes(&vec![b'x'; BUFFER_WIDTH]);
    assert_eq!(w.column_position(), 0);
    assert_eq!(row_bytes(&w, BUFFER_HEIGHT - 2), vec![b'x'; BUFFER_WIDTH]);
    assert_eq!(row_bytes(&w, BUFFER_HEIGHT - 1), Vec::<u8>::new());
}

#[test]
fn non_printable_advances_like_printable() {
    let mut a = Writer::new(ColorCode::new(Color::Yellow, Color::Black));
    let mut b = Writer::new(ColorCode::new(Color::Yellow, Color::Black));
    a.write_byte(0x01);
    b.write_byte(b'q');
    assert_eq!(a.column_position(), 1);
    assert_eq!(b.column_position(), 1);
    assert_eq!(a.cell(BUFFER_HEIGHT - 1, 0).ascii_character, FALLBACK_GLYPH);
    assert_eq!(b.cell(BUFFER_HEIGHT - 1, 0).ascii_character, b'q');
    a.write_string("\u{e9}z");
    assert_eq!(a.column_position(), 4);
    assert_eq!(row_bytes(&a, BUFFER_HEIGHT - 1), vec![0xfe, 0xfe, 0xfe, b'z']);
}

#[test]
fn hello_world_reads_back_with_default_attribute() {
    let mut dev = OutputDevice::with_default_color();
    assert!(dev.write_str("Hello World!"));
    let w = dev.writer();
    let expected = b"Hello World!";
    for (i, g) in expected.iter().enumerate() {
        assert_eq!(
            w.cell(BUFFER_HEIGHT - 1, i),
            ScreenChar { ascii_character: *g, color_code: ColorCode(0x0e) }
        );
    }
    assert_eq!(w.column_position(), 12);
    assert_eq!(w.color_code(), ColorCode::new(Color::Yellow, Color::Black));
}

#[test]
fn nested_write_is_turned_away_and_cursor_stays_in_bounds() {
    let mut dev = OutputDevice::with_default_color();
    assert!(dev.write_str("ab"));
    assert!(dev.try_lock());
    assert!(dev.is_locked());
    assert!(!dev.try_lock());
    assert!(!dev.write_str("nested"));
    assert_eq!(dev.writer().column_position(), 2);
    dev.write_bytes_locked(b"cd");
    dev.unlock();
    assert!(!dev.is_locked());
    assert_eq!(dev.writer().column_position(), 4);
    assert!(dev.writer().column_position() < BUFFER_WIDTH);
    assert_eq!(row_bytes(dev.writer(), BUFFER_HEIGHT - 1), b"abcd".to_vec());
}
