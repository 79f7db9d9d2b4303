//! Rasterizer, glyph and framebuffer behavior, and the PNG round trip.

use cli_vision::color::parse_hex_color;
use cli_vision::color::Rgb;
use cli_vision::framebuffer::MockFramebuffer;
use cli_vision::glyphs::get_char_bitmap;
use cli_vision::glyphs::render_braille;
use cli_vision::term::Vt100Terminal;

#[test]
fn test_mock_framebuffer_new() {
    let fb = MockFramebuffer::new(100, 50);
    assert_eq!(fb.width, 100);
    assert_eq!(fb.height, 50);
    // Should be initialized to black
    assert_eq!(fb.get_pixel(0, 0), Rgb::new(0, 0, 0));
    assert_eq!(fb.get_pixel(99, 49), Rgb::new(0, 0, 0));
}

#[test]
fn test_mock_framebuffer_fill() {
    let mut fb = MockFramebuffer::new(10, 10);
    fb.fill(Rgb::new(255, 128, 64));
    assert_eq!(fb.get_pixel(0, 0), Rgb::new(255, 128, 64));
    assert_eq!(fb.get_pixel(5, 5), Rgb::new(255, 128, 64));
    assert_eq!(fb.get_pixel(9, 9), Rgb::new(255, 128, 64));
}

#[test]
fn test_mock_framebuffer_draw_rect() {
    let mut fb = MockFramebuffer::new(20, 20);
    fb.fill(Rgb::new(0, 0, 0));
    fb.draw_rect(5, 5, 10, 10, Rgb::new(255, 0, 0));

    // Outside rect
    assert_eq!(fb.get_pixel(0, 0), Rgb::new(0, 0, 0));
    assert_eq!(fb.get_pixel(4, 4), Rgb::new(0, 0, 0));

    // Inside rect
    assert_eq!(fb.get_pixel(5, 5), Rgb::new(255, 0, 0));
    assert_eq!(fb.get_pixel(10, 10), Rgb::new(255, 0, 0));
    assert_eq!(fb.get_pixel(14, 14), Rgb::new(255, 0, 0));

    // Just outside rect
    assert_eq!(fb.get_pixel(15, 15), Rgb::new(0, 0, 0));
}

#[test]
fn test_mock_framebuffer_draw_text() {
    let mut fb = MockFramebuffer::new(80, 16);
    fb.fill(Rgb::new(0, 0, 0));
    fb.draw_text(0, 0, "Hi", Rgb::new(255, 255, 255), Rgb::new(0, 0, 0));

    // 'H' should have some white pixels (it's not empty)
    let mut has_white = false;
    for y in 0..8 {
        for x in 0..8 {
            if fb.get_pixel(x, y) == Rgb::new(255, 255, 255) {
                has_white = true;
                break;
            }
        }
    }
    assert!(has_white, "Character 'H' should have some foreground pixels");
}

#[test]
fn test_mock_framebuffer_roundtrip() {
    let mut fb = MockFramebuffer::new(32, 32);
    fb.fill(Rgb::new(100, 150, 200));
    fb.draw_rect(8, 8, 16, 16, Rgb::new(255, 0, 0));

    let png = fb.to_png().unwrap();
    let fb2 = MockFramebuffer::from_png_bytes(&png).unwrap();

    assert_eq!(fb2.width, fb.width);
    assert_eq!(fb2.height, fb.height);
    assert_eq!(fb2.get_pixel(0, 0), Rgb::new(100, 150, 200));
    assert_eq!(fb2.get_pixel(10, 10), Rgb::new(255, 0, 0));
}

#[test]
fn font8x8_bitmaps_are_scaled_consistently() {
    let bitmap = get_char_bitmap('A');
    assert!(
        bitmap.iter().any(|row| *row != 0),
        "bitmap should contain lit pixels"
    );
    for pair in bitmap.chunks_exact(2) {
        assert_eq!(
            pair[0], pair[1],
            "each row should be doubled to fill the cell height"
        );
    }
}

#[test]
fn rendered_pixels_follow_font_bitmaps() {
    let mut terminal = Vt100Terminal::new(1, 2);
    let fg = Rgb::new(200, 210, 220);
    let bg = Rgb::new(10, 20, 30);
    terminal.set_fg_color(fg);
    terminal.set_bg_color(bg);
    terminal.write_char('R');
    assert_eq!(terminal.cells[0][0].fg, fg);
    assert_eq!(terminal.cells[0][0].bg, bg);

    let bitmap = get_char_bitmap('R');
    let image = terminal.render_frame();

    for (py, row) in bitmap.iter().enumerate() {
        for px in 0..8usize {
            let expected_bit = (row >> px) & 1;
            let sample_x = px as u32 * 2;
            let sample_y = py as u32 * 2;
            let pixel = image.get_pixel(sample_x, sample_y);
            if expected_bit == 1 {
                assert_eq!(pixel, fg, "Expected foreground at glyph position ({px}, {py})");
            } else {
                assert_eq!(pixel, bg, "Expected background at glyph position ({px}, {py})");
            }
        }
    }
}

#[test]
fn braille_full_pattern_covers_quadrants_evenly() {
    // U+28FF has all eight dots set; its 8x16 bitmap paints the same
    // number of pixels in each quadrant of the cell
    let bitmap = get_char_bitmap('\u{28FF}');
    assert_eq!(bitmap, render_braille(0xFF));
    let mut quads = [0u32; 4];
    for (row, bits) in bitmap.iter().enumerate() {
        for col in 0..8usize {
            if (bits >> col) & 1 == 1 {
                let qx = if col < 4 { 0 } else { 1 };
                let qy = if row < 8 { 0 } else { 1 };
                quads[qy * 2 + qx] += 1;
            }
        }
    }
    assert!(quads[0] > 0);
    assert_eq!(quads[0], quads[1]);
    assert_eq!(quads[0], quads[2]);
    assert_eq!(quads[0], quads[3]);
}

#[test]
fn rasterize_is_deterministic() {
    let mut terminal = Vt100Terminal::new(4, 2);
    terminal.write_char('A');
    terminal.set_bold(true);
    terminal.write_char('B');
    let a = terminal.render_frame();
    let b = terminal.render_frame();
    assert_eq!(a.as_bytes(), b.as_bytes());
    assert_eq!(a.width, 64);
    assert_eq!(a.height, 64);
}

#[test]
fn underline_paints_bottom_rows() {
    let mut terminal = Vt100Terminal::new(2, 1);
    terminal.set_underline(true);
    terminal.write_char(' ');
    let frame = terminal.render_frame();
    // bottom two glyph rows (scaled: pixel rows 28..32) are foreground
    assert_eq!(frame.get_pixel(0, 28), Rgb::new(255, 255, 255));
    assert_eq!(frame.get_pixel(0, 31), Rgb::new(255, 255, 255));
    assert_eq!(frame.get_pixel(0, 0), Rgb::new(0, 0, 0));
}

#[test]
fn from_raw_rgb_checks_length() {
    let ok = MockFramebuffer::from_raw_rgb(2, 2, vec![0u8; 12]);
    assert!(ok.is_ok());
    let err = MockFramebuffer::from_raw_rgb(2, 2, vec![0u8; 11]);
    assert!(matches!(err, Err(cli_vision::snapshot::SnapshotError::Capture(_))));
}

#[test]
fn hex_colors_parse_exactly() {
    assert_eq!(parse_hex_color("ff0000"), Some(Rgb::new(255, 0, 0)));
    assert_eq!(parse_hex_color("#12aBcD"), Some(Rgb::new(0x12, 0xab, 0xcd)));
    assert_eq!(parse_hex_color("12345"), None);
    assert_eq!(parse_hex_color("12345g"), None);
}

#[test]
fn from_png_bytes_rejects_garbage() {
    let err = MockFramebuffer::from_png_bytes(b"not a png");
    assert!(matches!(err, Err(cli_vision::snapshot::SnapshotError::Capture(_))));
}
