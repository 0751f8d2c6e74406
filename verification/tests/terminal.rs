use renix::terminal::{Cell, VirtualTerminal};

fn row_string(rows: &Vec<Vec<Cell>>, r: usize) -> String {
    rows[r].iter().map(|c| c.ch).collect()
}

fn is_default(c: &Cell) -> bool {
    c.ch == ' ' && c.fg.is_none() && c.bg.is_none() && !c.bold
}

#[test]
fn printable_fill_row_major() {
    let mut t = VirtualTerminal::new(4, 3);
    t.feed_bytes(b"ABCDE");
    let s = t.get_screen();
    assert_eq!(row_string(s, 0), "ABCD");
    assert_eq!(row_string(s, 1), "E   ");
    assert_eq!(row_string(s, 2), "    ");
    assert_eq!(t.get_scrollback().len(), 0);
    for r in 0..3 {
        for c in 0..4 {
            assert!(s[r][c].fg.is_none() && s[r][c].bg.is_none() && !s[r][c].bold);
        }
    }
}

#[test]
fn overfill_scrolls_once() {
    let mut t = VirtualTerminal::new(3, 2);
    t.feed_bytes(b"ABCDEFG");
    let sb = t.get_scrollback();
    assert_eq!(sb.len(), 1);
    assert_eq!(sb[0].iter().map(|c| c.ch).collect::<String>(), "ABC");
    let s = t.get_screen();
    assert_eq!(row_string(s, 0), "DEF");
    assert_eq!(row_string(s, 1), "G  ");
}

#[test]
fn scrollback_never_exceeds_cap() {
    let mut t = VirtualTerminal::new(2, 2);
    let lots = vec![b'\n'; 10_100];
    t.feed_bytes(&lots);
    assert!(t.get_scrollback().len() <= 10_000);
    let more = vec![b'\n'; 1_500];
    t.feed_bytes(&more);
    assert!(t.get_scrollback().len() <= 10_000);
}

#[test]
fn sgr_reset_clears_attributes() {
    let mut t = VirtualTerminal::new(10, 3);
    t.feed_bytes(b"\x1b[1;31;41mA\x1b[0mB");
    let s = t.get_screen();
    assert_eq!(s[0][0].ch, 'A');
    assert_eq!(s[0][0].fg, Some(1));
    assert_eq!(s[0][0].bg, Some(1));
    assert!(s[0][0].bold);
    assert_eq!(s[0][1].ch, 'B');
    assert_eq!(s[0][1].fg, None);
    assert_eq!(s[0][1].bg, None);
    assert!(!s[0][1].bold);
}

#[test]
fn resize_keeps_overlap_and_defaults_rest() {
    let mut t = VirtualTerminal::new(4, 3);
    t.feed_bytes(b"\x1b[32mABCDEFGHIJKL");
    t.resize(2, 2);
    let s = t.get_screen();
    assert_eq!(s.len(), 2);
    assert_eq!(s[0].len(), 2);
    assert_eq!(s[0][0].ch, 'A');
    assert_eq!(s[0][1].ch, 'B');
    assert_eq!(s[1][0].ch, 'E');
    assert_eq!(s[1][1].ch, 'F');
    assert_eq!(s[0][0].fg, Some(2));
    t.resize(3, 3);
    let s = t.get_screen();
    assert_eq!(s[0][0].ch, 'A');
    assert_eq!(s[0][1].ch, 'B');
    assert!(is_default(&s[0][2]));
    assert!(is_default(&s[2][0]));
}

#[test]
fn clear_resets_grid_and_scrollback() {
    let mut t = VirtualTerminal::new(3, 2);
    t.feed_bytes(b"\x1b[31mABCDEFGHI\n\n\n");
    assert!(t.get_scrollback().len() > 0);
    t.clear();
    assert_eq!(t.get_scrollback().len(), 0);
    let s = t.get_screen();
    for r in 0..2 {
        for c in 0..3 {
            assert!(is_default(&s[r][c]));
        }
    }
    assert_eq!(t.cursor_position(), (0, 0));
}

#[test]
fn red_hi_scenario() {
    let mut t = VirtualTerminal::new(10, 5);
    t.feed_bytes(b"\x1b[31mhi\x1b[0m\n");
    let s = t.get_screen();
    assert_eq!(s[0][0].ch, 'h');
    assert_eq!(s[0][0].fg, Some(1));
    assert_eq!(s[0][1].ch, 'i');
    assert_eq!(s[0][1].fg, Some(1));
    for c in 2..10 {
        assert!(is_default(&s[0][c]));
    }
    assert_eq!(t.cursor_position(), (0, 1));
}

#[test]
fn cursor_position_sequence() {
    let mut t = VirtualTerminal::new(10, 5);
    t.feed_bytes(b"\x1b[2;3HX");
    let s = t.get_screen();
    assert_eq!(s[1][2].ch, 'X');
    // Missing parameters default to the top-left corner.
    let mut t2 = VirtualTerminal::new(10, 5);
    t2.feed_bytes(b"abc\x1b[HY");
    assert_eq!(t2.get_screen()[0][0].ch, 'Y');
    // Out-of-range positions clamp to the grid.
    let mut t3 = VirtualTerminal::new(10, 5);
    t3.feed_bytes(b"\x1b[99;99HZ");
    assert_eq!(t3.get_screen()[4][9].ch, 'Z');
}

#[test]
fn erase_display_only_on_two() {
    let mut t = VirtualTerminal::new(4, 2);
    t.feed_bytes(b"ABCD");
    t.feed_bytes(b"\x1b[J");
    assert_eq!(row_string(t.get_screen(), 0), "ABCD");
    t.feed_bytes(b"\x1b[2J");
    assert_eq!(row_string(t.get_screen(), 0), "    ");
}

#[test]
fn erase_line_from_cursor() {
    let mut t = VirtualTerminal::new(6, 2);
    t.feed_bytes(b"ABCDEF");
    t.feed_bytes(b"\x1b[1;3H\x1b[K");
    assert_eq!(row_string(t.get_screen(), 0), "AB    ");
}

#[test]
fn control_bytes_move_cursor() {
    let mut t = VirtualTerminal::new(20, 3);
    t.feed_bytes(b"AB\rC");
    assert_eq!(row_string(t.get_screen(), 0).trim_end(), "CB");
    let mut t2 = VirtualTerminal::new(20, 3);
    t2.feed_bytes(b"A\tB");
    assert_eq!(t2.get_screen()[0][8].ch, 'B');
    let mut t3 = VirtualTerminal::new(20, 3);
    t3.feed_bytes(b"AB\x08C");
    assert_eq!(row_string(t3.get_screen(), 0).trim_end(), "AC");
    // Backspace at the left edge stays put.
    let mut t4 = VirtualTerminal::new(20, 3);
    t4.feed_bytes(b"\x08X");
    assert_eq!(t4.get_screen()[0][0].ch, 'X');
}

#[test]
fn multibyte_glyphs_decode_to_one_cell() {
    let mut t = VirtualTerminal::new(10, 2);
    t.feed_bytes("\u{2713} ok".as_bytes());
    let s = t.get_screen();
    assert_eq!(s[0][0].ch, '\u{2713}');
    assert_eq!(s[0][1].ch, ' ');
    assert_eq!(s[0][2].ch, 'o');
    assert_eq!(s[0][3].ch, 'k');
}

#[test]
fn split_escape_sequence_across_feeds() {
    let mut t = VirtualTerminal::new(10, 2);
    t.feed_bytes(b"\x1b[3");
    t.feed_bytes(b"1m");
    t.feed_bytes(b"R");
    assert_eq!(t.get_screen()[0][0].fg, Some(1));
}

#[test]
fn unsupported_sequences_are_ignored() {
    let mut t = VirtualTerminal::new(10, 2);
    t.feed_bytes(b"\x1b]0;window title\x07A");
    let s = t.get_screen();
    assert_eq!(s[0][0].ch, 'A');
    let mut t2 = VirtualTerminal::new(10, 2);
    t2.feed_bytes(b"\x1b[?25lB");
    assert_eq!(t2.get_screen()[0][0].ch, 'B');
    let mut t3 = VirtualTerminal::new(10, 2);
    t3.feed_bytes(b"\x1b=C");
    assert_eq!(t3.get_screen()[0][0].ch, 'C');
}

#[test]
fn colon_subparameters_keep_main_value() {
    // The digits after a colon belong to a subparameter and do not run into
    // the main value: 1:5 selects bold (1), not code 15.
    let mut t = VirtualTerminal::new(10, 2);
    t.feed_bytes(b"\x1b[1:5mA");
    let s = t.get_screen();
    assert!(s[0][0].bold);
    assert_eq!(s[0][0].fg, None);
    // A full color-with-subparameters sequence selects the unsupported main
    // code 38 and changes nothing.
    let mut t2 = VirtualTerminal::new(10, 2);
    t2.feed_bytes(b"\x1b[38:5:196mB");
    let s2 = t2.get_screen();
    assert_eq!(s2[0][0].fg, None);
    assert!(!s2[0][0].bold);
    // A separator after a subparameter starts a fresh parameter.
    let mut t3 = VirtualTerminal::new(10, 2);
    t3.feed_bytes(b"\x1b[1:5;31mC");
    let s3 = t3.get_screen();
    assert!(s3[0][0].bold);
    assert_eq!(s3[0][0].fg, Some(1));
}

#[test]
fn wrap_at_right_edge() {
    let mut t = VirtualTerminal::new(3, 3);
    t.feed_bytes(b"ABCD");
    let s = t.get_screen();
    assert_eq!(row_string(s, 0), "ABC");
    assert_eq!(s[1][0].ch, 'D');
    assert_eq!(t.cursor_position(), (1, 1));
}

#[test]
fn cursor_stays_within_grid_after_full_row() {
    // Writing the last column defers the wrap: the cursor rests on that
    // column, inside the grid, until the next write.
    let mut t = VirtualTerminal::new(3, 2);
    t.feed_bytes(b"ABC");
    assert_eq!(t.cursor_position(), (2, 0));
    t.feed_bytes(b"D");
    assert_eq!(t.cursor_position(), (1, 1));
    assert_eq!(t.get_screen()[1][0].ch, 'D');
    // Backspace consumes the deferred wrap and stands on the last column.
    let mut t2 = VirtualTerminal::new(3, 2);
    t2.feed_bytes(b"ABC\x08X");
    assert_eq!(row_string(t2.get_screen(), 0), "ABX");
    assert_eq!(t2.cursor_position(), (2, 0));
    // A carriage return at the margin resolves the wrap to column 0.
    let mut t3 = VirtualTerminal::new(3, 2);
    t3.feed_bytes(b"ABC\rZ");
    assert_eq!(row_string(t3.get_screen(), 0), "ZBC");
}
