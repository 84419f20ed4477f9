//! Fonts, framebuffer drawing, events and the serial line.

use boot_core::characters::{PSF1Header, PSFData};
use boot_core::drawing::{color_value, Color, FramebufferInfo};
use boot_core::events::{EventManager, EventType};
use boot_core::fonts::{draw_char, draw_string, draw_string_raw, PsfFont};
use boot_core::serial_io::{serial_write_byte, serial_write_str, SerialPort};

/// A font file with 256 one-row glyphs; glyph `k` has row byte `k`.
fn tiny_font_bytes() -> Vec<u8> {
    let mut d = vec![0x36u8, 0x04, 0x00, 0x01];
    for k in 0..256 {
        d.push(k as u8);
    }
    d
}

fn small_fb(width: usize, height: usize, ppsl: usize) -> FramebufferInfo {
    FramebufferInfo {
        buffer: vec![0u32; height * ppsl],
        size: height * ppsl * 4,
        width,
        height,
        pixels_per_scan_line: ppsl,
    }
}

#[test]
fn font_header_is_checked() {
    let font = PsfFont::from_bytes(&tiny_font_bytes()).unwrap();
    assert_eq!(font.glyph_height, 1);
    assert_eq!(font.glyph_num, 256);
    assert_eq!(font.glyphs.len(), 256);

    // Wrong magic.
    assert!(PsfFont::from_bytes(&vec![0x35, 0x04, 0, 1]).is_none());
    // Too short for the promised glyphs.
    assert!(PsfFont::from_bytes(&vec![0x36, 0x04, 0, 16]).is_none());
    // The mode bit doubles the glyph count.
    let mut wide = vec![0x36u8, 0x04, 0x01, 0x01];
    wide.resize(4 + 512, 0xAB);
    let wide_font = PsfFont::from_bytes(&wide).unwrap();
    assert_eq!(wide_font.glyph_num, 512);
}

#[test]
fn glyphs_are_indexed_by_code() {
    let font = PsfFont::from_bytes(&tiny_font_bytes()).unwrap();
    assert_eq!(font.glyph_for(0x41), &[0x41]);
    assert_eq!(font.glyph_for(0), &[0x00]);
    assert_eq!(font.glyph_for(255), &[0xFF]);
}

#[test]
fn drawing_a_char_sets_exactly_its_set_bits() {
    let font = PsfFont::from_bytes(&tiny_font_bytes()).unwrap();
    let mut fb = small_fb(16, 4, 20);

    // Glyph 0xA0 has row byte 0b1010_0000: columns 0 and 2.
    draw_char(&mut fb, &font, 0xA0, 3, 1, Color::White);
    let white = color_value(Color::White);
    for i in 0..fb.buffer.len() {
        let expected = if i == 1 * 20 + 3 || i == 1 * 20 + 5 { white } else { 0 };
        assert_eq!(fb.buffer[i], expected);
    }
}

#[test]
fn drawing_clips_to_the_visible_area() {
    let font = PsfFont::from_bytes(&tiny_font_bytes()).unwrap();
    let mut fb = small_fb(4, 2, 8);

    // Glyph 0xFF sets all eight columns, but only columns 0..4 are visible.
    draw_char(&mut fb, &font, 0xFF, 0, 0, Color::Red);
    let red = color_value(Color::Red);
    for i in 0..fb.buffer.len() {
        let expected = if i < 4 { red } else { 0 };
        assert_eq!(fb.buffer[i], expected);
    }

    // A char drawn below the last row paints nothing.
    let mut fb2 = small_fb(4, 2, 8);
    draw_char(&mut fb2, &font, 0xFF, 0, 2, Color::Red);
    assert!(fb2.buffer.iter().all(|p| *p == 0));
}

#[test]
fn strings_advance_eight_columns_per_glyph() {
    let font = PsfFont::from_bytes(&tiny_font_bytes()).unwrap();
    let mut fb = small_fb(32, 2, 32);

    // Two spaces: glyph 0x20 has row byte 0b0010_0000, column 2 only, so
    // the two glyphs paint the pixels at x = 2 and x = 10.
    draw_string(&mut fb, &font, "\u{20}\u{20}", 0, 0, Color::White);
    let white = color_value(Color::White);
    for i in 0..fb.buffer.len() {
        let expected = if i == 2 || i == 10 { white } else { 0 };
        assert_eq!(fb.buffer[i], expected);
    }
}

#[test]
fn line_feed_returns_the_pen_without_drawing() {
    let font = PsfFont::from_bytes(&tiny_font_bytes()).unwrap();
    let mut fb = small_fb(32, 2, 32);

    // Space, line feed, space: both spaces land at the same column.
    draw_string_raw(&mut fb, &font, "\u{20}\n\u{20}", 4, 0, Color::LightBlue);
    let blue = color_value(Color::LightBlue);
    for i in 0..fb.buffer.len() {
        let expected = if i == 6 { blue } else { 0 };
        assert_eq!(fb.buffer[i], expected);
    }
}

#[test]
fn fills_cover_exactly_the_rectangle() {
    let mut fb = small_fb(3, 2, 4);
    fb.draw_area(2, 1, Color::Purple);
    let purple = color_value(Color::Purple);
    assert_eq!(fb.buffer, vec![purple, purple, 0, 0, 0, 0, 0, 0]);

    let mut fb2 = small_fb(3, 2, 4);
    fb2.fill_screen(Color::Red);
    let red = color_value(Color::Red);
    assert_eq!(fb2.buffer, vec![red, red, red, 0, red, red, red, 0]);
}

#[test]
fn raw_header_reads_the_first_four_bytes() {
    let data = vec![0x36u8, 0x04, 0x01, 0x10, 0xAA];
    let header = PSF1Header::init(&data);
    assert_eq!(header.magic, [0x36, 0x04]);
    assert_eq!(header.mode, 0x01);
    assert_eq!(header.glyph_height, 0x10);

    let bundle = PSFData::new(header, 512, vec![1, 2, 3]);
    assert_eq!(bundle.glyph_count, 512);
    assert_eq!(bundle.glyphs, vec![1, 2, 3]);
}

#[test]
fn event_queue_records_in_order() {
    let mut mgr = EventManager::new();
    assert_eq!(mgr.events.len(), 0);

    mgr.new_event(EventType::PrintLine(String::from("hello")));
    mgr.new_event(EventType::SerialIO(String::from("probe")));
    assert_eq!(mgr.events.len(), 2);
    assert!(!mgr.events[0].fired);
    assert!(matches!(&mgr.events[0].event_type, EventType::PrintLine(s) if s == "hello"));
    assert!(matches!(&mgr.events[1].event_type, EventType::SerialIO(s) if s == "probe"));

    mgr.clean_events();
    assert_eq!(mgr.events.len(), 0);
}

#[test]
fn serial_line_receives_bytes_in_order() {
    let mut port = SerialPort::new();
    serial_write_byte(&mut port, 0x55);
    serial_write_str(&mut port, "ok\n");
    assert_eq!(port.written, vec![0x55, b'o', b'k', b'\n']);
}
