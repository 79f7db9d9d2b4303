//! Emulator scenarios: plain text, colors, wrap and scroll, the alternate
//! screen, cursor motion, reset, and the byte-level parser's robustness.

use cli_vision::color::Rgb;
use cli_vision::parser::Vt100Parser;
use cli_vision::term::Vt100Terminal;

fn feed_bytes(p: &mut Vt100Parser, bytes: &[u8]) {
    for &b in bytes {
        p.process_byte(b);
    }
}

#[test]
fn plain_text_scenario() {
    let mut p = Vt100Parser::new(10, 3);
    feed_bytes(&mut p, b"Hello");
    let text = p.terminal().to_text();
    let lines: Vec<&str> = text.lines().collect();
    assert_eq!(lines[0], "Hello     ");
    assert_eq!(p.terminal().cursor_x, 5);
    assert_eq!(p.terminal().cursor_y, 0);
    for y in 0..3 {
        for x in 0..10 {
            let cell = p.terminal().cells[y][x];
            assert_eq!(cell.fg, Rgb::new(255, 255, 255));
            assert_eq!(cell.bg, Rgb::new(0, 0, 0));
        }
    }
}

#[test]
fn colored_text_scenario() {
    let mut p = Vt100Parser::new(10, 1);
    feed_bytes(&mut p, b"\x1b[31mX\x1b[0m Y");
    let t = p.terminal();
    assert_eq!(t.cells[0][0].ch, 'X');
    assert_eq!(t.cells[0][0].fg, Rgb::new(205, 49, 49));
    assert_eq!(t.cells[0][2].ch, 'Y');
    assert_eq!(t.cells[0][2].fg, Rgb::new(255, 255, 255));
}

#[test]
fn wrap_and_scroll_scenario() {
    let mut p = Vt100Parser::new(3, 2);
    feed_bytes(&mut p, b"ABCDEFG");
    let text = p.terminal().to_text();
    assert_eq!(text, "DEF\nG  \n");
    assert_eq!(p.terminal().cursor_x, 1);
    assert_eq!(p.terminal().cursor_y, 1);
}

#[test]
fn alternate_screen_scenario() {
    let mut p = Vt100Parser::new(10, 2);
    feed_bytes(&mut p, b"A");
    feed_bytes(&mut p, b"\x1b[?1049h");
    feed_bytes(&mut p, b"B");
    feed_bytes(&mut p, b"\x1b[?1049l");
    let t = p.terminal();
    assert_eq!(t.cells[0][0].ch, 'A');
    assert_eq!(t.cursor_x, 1);
    assert_eq!(t.cursor_y, 0);
    assert!(!t.is_alternate_screen());
}

#[test]
fn cursor_position_clamps_to_grid() {
    let mut p = Vt100Parser::new(10, 3);
    feed_bytes(&mut p, b"\x1b[99;99H");
    assert_eq!(p.terminal().cursor_x, 9);
    assert_eq!(p.terminal().cursor_y, 2);
}

#[test]
fn double_reset_matches_fresh_grid() {
    let mut p = Vt100Parser::new(5, 3);
    feed_bytes(&mut p, b"hi\x1b[31m!");
    feed_bytes(&mut p, b"\x1bc\x1bc");
    let fresh = Vt100Terminal::new(5, 3);
    assert_eq!(p.terminal().to_text(), fresh.to_text());
    assert_eq!(p.terminal().cursor_x, 0);
    assert_eq!(p.terminal().cursor_y, 0);
    assert_eq!(p.terminal().pen, fresh.pen);
}

#[test]
fn feed_accepts_every_byte_value() {
    let mut p = Vt100Parser::new(4, 3);
    for b in 0u16..=255 {
        p.process_byte(b as u8);
    }
    // run it again from every parser state a stray ESC may leave behind
    for b in 0u16..=255 {
        p.process_byte(0x1b);
        p.process_byte(b as u8);
    }
}

#[test]
fn utf8_text_is_decoded() {
    let mut p = Vt100Parser::new(5, 1);
    feed_bytes(&mut p, "é€".as_bytes());
    let t = p.terminal();
    assert_eq!(t.cells[0][0].ch, 'é');
    assert_eq!(t.cells[0][1].ch, '€');
}

#[test]
fn line_feed_keeps_column() {
    let mut p = Vt100Parser::new(10, 3);
    feed_bytes(&mut p, b"ab\ncd");
    let t = p.terminal();
    // LF advances the row without resetting the column
    assert_eq!(t.cells[0][0].ch, 'a');
    assert_eq!(t.cells[0][1].ch, 'b');
    assert_eq!(t.cells[1][2].ch, 'c');
    assert_eq!(t.cells[1][3].ch, 'd');
}

#[test]
fn carriage_return_and_tab_move_the_cursor() {
    let mut p = Vt100Parser::new(20, 2);
    feed_bytes(&mut p, b"abc\rZ");
    assert_eq!(p.terminal().cells[0][0].ch, 'Z');
    let mut q = Vt100Parser::new(20, 2);
    feed_bytes(&mut q, b"a\tb");
    assert_eq!(q.terminal().cells[0][8].ch, 'b');
}

#[test]
fn erase_to_end_of_line_uses_pen_background() {
    let mut p = Vt100Parser::new(5, 2);
    feed_bytes(&mut p, b"abcde");
    feed_bytes(&mut p, b"\x1b[1;3H\x1b[44m\x1b[K");
    let t = p.terminal();
    assert_eq!(t.cells[0][0].ch, 'a');
    assert_eq!(t.cells[0][1].ch, 'b');
    for x in 2..5 {
        assert_eq!(t.cells[0][x].ch, ' ');
        assert_eq!(t.cells[0][x].bg, Rgb::new(36, 114, 200));
    }
}

#[test]
fn sgr_bold_underline_inverse_toggle() {
    let mut p = Vt100Parser::new(5, 1);
    feed_bytes(&mut p, b"\x1b[1;4;7m");
    let pen = p.terminal().pen;
    assert!(pen.attrs.bold && pen.attrs.underline && pen.attrs.inverse);
    feed_bytes(&mut p, b"\x1b[22;24;27m");
    let pen = p.terminal().pen;
    assert!(!pen.attrs.bold && !pen.attrs.underline && !pen.attrs.inverse);
}

#[test]
fn sgr_truecolor_and_truncated_extension() {
    let mut p = Vt100Parser::new(5, 1);
    feed_bytes(&mut p, b"\x1b[38;2;1;2;3m");
    assert_eq!(p.terminal().pen.fg, Rgb::new(1, 2, 3));
    // a truncated extension ends the list without touching the pen further
    feed_bytes(&mut p, b"\x1b[48;2;9m");
    assert_eq!(p.terminal().pen.bg, Rgb::new(0, 0, 0));
}

#[test]
fn sgr_zero_prefix_acts_on_default_pen() {
    // applying `0;S` equals applying `S` to a fresh pen
    let mut a = Vt100Parser::new(5, 1);
    feed_bytes(&mut a, b"\x1b[1;31m");
    feed_bytes(&mut a, b"\x1b[0;4m");
    let mut b = Vt100Parser::new(5, 1);
    feed_bytes(&mut b, b"\x1b[4m");
    assert_eq!(a.terminal().pen, b.terminal().pen);
}

#[test]
fn palette_256_colors_match_formula() {
    for n in 0u16..=255 {
        let mut p = Vt100Parser::new(2, 1);
        let seq = format!("\x1b[38;5;{}m", n);
        feed_bytes(&mut p, seq.as_bytes());
        let idx = n as u8;
        let expected = if idx < 8 {
            [
                [0, 0, 0],
                [205, 49, 49],
                [13, 188, 121],
                [229, 229, 16],
                [36, 114, 200],
                [188, 63, 188],
                [17, 168, 205],
                [229, 229, 229],
            ][idx as usize]
        } else if idx < 16 {
            [
                [102, 102, 102],
                [241, 76, 76],
                [35, 209, 139],
                [245, 245, 67],
                [59, 142, 234],
                [214, 112, 214],
                [41, 184, 219],
                [255, 255, 255],
            ][(idx - 8) as usize]
        } else if idx < 232 {
            let n0 = idx - 16;
            let levels = [0u8, 95, 135, 175, 215, 255];
            [
                levels[(n0 / 36) as usize],
                levels[((n0 % 36) / 6) as usize],
                levels[(n0 % 6) as usize],
            ]
        } else {
            let shade = 8 + (idx - 232) * 10;
            [shade, shade, shade]
        };
        assert_eq!(
            p.terminal().pen.fg,
            Rgb::new(expected[0], expected[1], expected[2]),
            "palette index {}",
            n
        );
    }
}

#[test]
fn writing_full_width_wraps_to_next_row() {
    let mut p = Vt100Parser::new(4, 3);
    feed_bytes(&mut p, b"abcd");
    assert_eq!(p.terminal().cursor_x, 0);
    assert_eq!(p.terminal().cursor_y, 1);
}

#[test]
fn overflow_scrolls_expected_number_of_times() {
    // 3x2 grid, 9 characters: 9/3 - (2-1) = 2 scrolls, last row holds the tail
    let mut p = Vt100Parser::new(3, 2);
    feed_bytes(&mut p, b"abcdefghi");
    assert_eq!(p.terminal().to_text(), "ghi\n   \n");
    assert_eq!(p.terminal().cursor_x, 0);
    assert_eq!(p.terminal().cursor_y, 1);
}

#[test]
fn save_and_restore_cursor() {
    let mut p = Vt100Parser::new(10, 3);
    feed_bytes(&mut p, b"ab\x1b7cd\x1b8Z");
    // saved at column 2, restored there, then Z overwrites 'c'
    assert_eq!(p.terminal().cells[0][2].ch, 'Z');
}

#[test]
fn osc_body_is_swallowed() {
    let mut p = Vt100Parser::new(10, 1);
    feed_bytes(&mut p, b"\x1b]0;window title\x07ok");
    let text = p.terminal().to_text();
    assert!(text.starts_with("ok"));
}
