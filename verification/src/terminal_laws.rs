//! Laws of the virtual terminal that hold across whole byte streams: the
//! grid and scrollback stay well-formed under any input, the scrollback
//! never exceeds its cap, and a graphic-rendition reset clears the painting
//! attributes whatever they were.

use vstd::prelude::*;

verus! {

use vstd::arithmetic::div_mod::{
    lemma_fundamental_div_mod, lemma_fundamental_div_mod_converse,
    lemma_mod_division_less_than_divisor,
};
use crate::terminal::{
    spec_advance_line, spec_csi_byte, spec_ctrl, spec_escape, spec_feed, spec_ground,
    spec_put_char, spec_scroll, spec_sgr, spec_sgr_one, spec_sgr_seq, spec_step, spec_tab,
    spec_text_byte, spec_utf8_byte, spec_wrap, Cell, Mode, TermModel, MAX_SCROLLBACK,
};

/// A printable byte: written to the grid as itself.
pub open spec fn is_printable(b: u8) -> bool {
    0x20 <= b <= 0x7E
}

/// One step keeps the terminal well-formed.
pub proof fn lemma_step_wf(t: TermModel, b: u8)
    requires
        t.wf(),
    ensures
        spec_step(t, b).wf(),
{
    lemma_helpers_wf(t, b);
}

/// Scrolling keeps the terminal well-formed.
proof fn lemma_scroll_wf(t: TermModel)
    requires
        t.wf(),
    ensures
        spec_scroll(t).wf(),
{
    let r = spec_scroll(t);
    assert forall|i: int| 0 <= i < r.height implies (#[trigger] r.screen[i]).len() == r.width by {
        if i < r.height - 1 {
            assert(t.screen[i + 1].len() == t.width);
        }
    }
}

/// Advancing a line keeps the terminal well-formed.
proof fn lemma_advance_wf(t: TermModel)
    requires
        t.wf(),
    ensures
        spec_advance_line(t).wf(),
{
    let t0 = TermModel { cursor_x: 0, ..t };
    assert(t0.wf());
    lemma_scroll_wf(t0);
}

/// A control byte keeps the terminal well-formed.
proof fn lemma_ctrl_wf(t: TermModel, b: u8)
    requires
        t.wf(),
    ensures
        spec_ctrl(t, b).wf(),
        spec_tab(t).wf(),
{
    lemma_advance_wf(t);
}

/// Printing a character keeps the terminal well-formed.
proof fn lemma_put_wf(t: TermModel, c: char)
    requires
        t.wf(),
    ensures
        spec_wrap(t).wf(),
        spec_wrap(t).cursor_x < spec_wrap(t).width,
        spec_put_char(t, c).wf(),
{
    lemma_advance_wf(t);
    let t1 = spec_wrap(t);
    let r = spec_put_char(t, c);
    assert forall|i: int| 0 <= i < r.height implies (#[trigger] r.screen[i]).len() == r.width by {
        assert(t1.screen[i].len() == t1.width);
    }
}

/// A byte in plain text keeps the terminal well-formed.
proof fn lemma_ground_wf(t: TermModel, b: u8)
    requires
        t.wf(),
    ensures
        spec_ground(t, b).wf(),
{
    lemma_ctrl_wf(t, b);
    if !(b == 0x1B) && !(b < 0x20 || b == 0x7F) && b < 0x80 {
        lemma_put_wf(t, b as char);
    }
}

/// All the per-action well-formedness facts at once.
proof fn lemma_helpers_wf(t: TermModel, b: u8)
    requires
        t.wf(),
    ensures
        spec_scroll(t).wf(),
        spec_advance_line(t).wf(),
        spec_tab(t).wf(),
        spec_ctrl(t, b).wf(),
        spec_wrap(t).wf(),
        forall|c: char| (#[trigger] spec_put_char(t, c)).wf(),
        spec_ground(t, b).wf(),
        spec_escape(t, b).wf(),
        spec_csi_byte(t, b).wf(),
        spec_text_byte(t, b).wf(),
        spec_utf8_byte(t, b).wf(),
        spec_step(t, b).wf(),
{
    lemma_scroll_wf(t);
    lemma_advance_wf(t);
    lemma_ctrl_wf(t, b);
    assert forall|c: char| (#[trigger] spec_put_char(t, c)).wf() by {
        lemma_put_wf(t, c);
    }
    lemma_ground_wf(t, b);
    assert(spec_csi_byte(t, b).wf()) by {
        if !(b == 0x1B) && !(b < 0x20) && 0x40 <= b <= 0x7E {
            let tg = TermModel {
                mode: Mode::Ground,
                csi_params: Seq::empty(),
                csi_cur: 0,
                csi_cur_set: false,
                csi_skip: false,
                ..t
            };
            assert(tg.wf());
            let ps = crate::terminal::spec_csi_final_params(t);
            lemma_sgr_seq_wf(tg, ps);
            assert(crate::terminal::spec_erase_line(tg).wf()) by {
                let r = crate::terminal::spec_erase_line(tg);
                assert forall|i: int| 0 <= i < r.height implies (#[trigger] r.screen[i]).len()
                    == r.width by {
                    assert(tg.screen[i].len() == tg.width);
                    assert(tg.screen[tg.cursor_y].len() == tg.width);
                }
            }
        }
    }
    assert(spec_utf8_byte(t, b).wf()) by {
        if 0x80 <= b <= 0xBF {
            let acc2: u32 = (t.utf8_acc << 6u32) | ((b & 0x3F) as u32);
            if t.utf8_need <= 1 {
                let tg = TermModel { mode: Mode::Ground, utf8_acc: acc2, ..t };
                assert(tg.wf());
                if vstd::utf8::is_scalar(acc2) {
                    lemma_put_wf(tg, acc2 as char);
                }
            }
        } else {
            let tg = TermModel { mode: Mode::Ground, ..t };
            assert(tg.wf());
            lemma_ground_wf(tg, b);
        }
    }
}

/// Graphic-rendition codes keep the terminal well-formed.
proof fn lemma_sgr_seq_wf(t: TermModel, params: Seq<u16>)
    requires
        t.wf(),
    ensures
        spec_sgr_seq(t, params).wf(),
        spec_sgr(t, params).wf(),
    decreases params.len(),
{
    if params.len() > 0 {
        lemma_sgr_seq_wf(spec_sgr_one(t, params[0]), params.drop_first());
    }
}

/// Any byte stream keeps the terminal well-formed.
pub proof fn lemma_feed_wf(t: TermModel, bs: Seq<u8>)
    requires
        t.wf(),
    ensures
        spec_feed(t, bs).wf(),
    decreases bs.len(),
{
    if bs.len() > 0 {
        lemma_feed_wf(t, bs.drop_last());
        lemma_step_wf(spec_feed(t, bs.drop_last()), bs.last());
    }
}

/// The scrollback never exceeds its cap, whatever is fed and however long.
pub proof fn lemma_scrollback_bounded(t: TermModel, bs: Seq<u8>)
    requires
        t.wf(),
    ensures
        spec_feed(t, bs).scrollback.len() <= MAX_SCROLLBACK as int,
{
    lemma_feed_wf(t, bs);
}

/// True when every byte of the sequence is printable.
pub open spec fn all_printable(bs: Seq<u8>) -> bool {
    forall|i: int| 0 <= i < bs.len() ==> is_printable(#[trigger] bs[i])
}

/// A terminal whose cursor rests at the origin in plain-text mode, with no
/// wrap pending.
pub open spec fn at_origin(t: TermModel) -> bool {
    t.cursor_x == 0 && t.cursor_y == 0 && !t.wrap_pending && t.mode == Mode::Ground
}

/// The cell that printing byte `b` under `c`'s attributes produces.
pub open spec fn printed_cell(c: TermModel, b: u8) -> Cell {
    Cell { ch: b as char, fg: c.fg, bg: c.bg, bold: c.bold }
}

/// `c`'s grid with the first `k` bytes of `bs` written row-major from the
/// top-left corner.
pub open spec fn filled_screen(c: TermModel, bs: Seq<u8>, k: int) -> Seq<Seq<Cell>> {
    Seq::new(
        c.height as nat,
        |r: int|
            Seq::new(
                c.width as nat,
                |cl: int|
                    if r * c.width + cl < k {
                        printed_cell(c, bs[r * c.width + cl])
                    } else {
                        c.screen[r][cl]
                    },
            ),
    )
}

/// The cursor column after `k` printables from the origin: it rests on the
/// last cell of a just-completed row, with the wrap deferred, until the next
/// write.
pub open spec fn filled_cx(c: TermModel, k: int) -> int {
    if k == 0 {
        0
    } else if k % c.width == 0 {
        c.width - 1
    } else {
        k % c.width
    }
}

/// Whether a wrap is deferred after `k` printables from the origin: exactly
/// when they complete a row.
pub open spec fn filled_pending(c: TermModel, k: int) -> bool {
    k > 0 && k % c.width == 0
}

/// The cursor row after `k` printables from the origin.
pub open spec fn filled_cy(c: TermModel, k: int) -> int {
    if k == 0 {
        0
    } else if k % c.width == 0 {
        k / c.width - 1
    } else {
        k / c.width
    }
}

/// Feeding `k` printable bytes, at most as many as the grid holds, from the
/// origin: the state is exactly the row-major fill, with nothing scrolled.
#[verifier::rlimit(30)]
proof fn lemma_fill(c: TermModel, bs: Seq<u8>, k: int)
    requires
        c.wf(),
        at_origin(c),
        all_printable(bs),
        0 <= k <= bs.len(),
        k <= c.width * c.height,
    ensures
        spec_feed(c, bs.take(k)) == (TermModel {
            screen: filled_screen(c, bs, k),
            cursor_x: filled_cx(c, k),
            cursor_y: filled_cy(c, k),
            wrap_pending: filled_pending(c, k),
            ..c
        }),
    decreases k,
{
    let w = c.width;
    let h = c.height;
    if k == 0 {
        assert(bs.take(0) =~= Seq::<u8>::empty());
        assert(filled_screen(c, bs, 0) =~~= c.screen);
        assert(spec_feed(c, bs.take(0)) =~~= (TermModel {
            screen: filled_screen(c, bs, 0),
            cursor_x: 0,
            cursor_y: 0,
            wrap_pending: false,
            ..c
        }));
    } else {
        let m = k - 1;
        lemma_fill(c, bs, m);
        let tprev = spec_feed(c, bs.take(m));
        let b = bs[m];
        assert(bs.take(k).drop_last() =~= bs.take(m));
        assert(bs.take(k).last() == b);
        assert(spec_feed(c, bs.take(k)) == spec_step(tprev, b));
        assert(is_printable(b));
        assert(spec_step(tprev, b) == spec_put_char(tprev, b as char));
        lemma_fundamental_div_mod(m, w);
        lemma_mod_division_less_than_divisor(m, w);
        let q = m / w;
        let rr = m % w;
        assert(m == w * q + rr);
        assert(0 <= rr < w);
        assert(q < h) by (nonlinear_arith)
            requires
                w >= 1,
                m == w * q + rr,
                0 <= rr,
                m < w * h,
        ;
        assert(q >= 0) by (nonlinear_arith)
            requires
                w >= 1,
                m == w * q + rr,
                rr < w,
                m >= 0,
        ;
        // The position the byte is written to, row `wy`, column `wx`.
        let t1 = spec_wrap(tprev);
        let wx = t1.cursor_x;
        let wy = t1.cursor_y;
        if m == 0 {
            assert(t1 == tprev);
            assert(wx == 0 && wy == 0);
            assert(wy * w + wx == m) by (nonlinear_arith)
                requires
                    wy == 0,
                    wx == 0,
                    m == 0,
            ;
        } else if rr == 0 {
            // The previous write completed row q - 1; this one wraps.
            assert(tprev.cursor_x == w - 1);
            assert(tprev.wrap_pending);
            assert(tprev.cursor_y == q - 1);
            assert(t1 == spec_advance_line(tprev));
            assert(q - 1 + 1 < h);
            assert(wx == 0 && wy == q);
            assert(wy * w + wx == m) by (nonlinear_arith)
                requires
                    wy == q,
                    wx == 0,
                    rr == 0,
                    m == w * q + rr,
            ;
        } else {
            assert(tprev.cursor_x == rr && rr < w);
            assert(t1 == tprev);
            assert(wx == rr && wy == q);
            assert(wy * w + wx == m) by (nonlinear_arith)
                requires
                    wy == q,
                    wx == rr,
                    m == w * q + rr,
            ;
        }
        assert(t1.scrollback == c.scrollback);
        assert(t1.fg == c.fg && t1.bg == c.bg && t1.bold == c.bold);
        assert(t1.screen == filled_screen(c, bs, m));
        let res = spec_put_char(tprev, b as char);
        assert(res.screen == t1.screen.update(wy, t1.screen[wy].update(wx, printed_cell(c, b))));
        assert(res.cursor_y == wy);
        if wx + 1 == w {
            assert(res.cursor_x == wx && res.wrap_pending);
        } else {
            assert(res.cursor_x == wx + 1 && !res.wrap_pending);
        }
        // The written grid is the fill with one more byte.
        assert forall|r2: int, c2: int| 0 <= r2 < h && 0 <= c2 < w implies filled_screen(
            c,
            bs,
            k,
        )[r2][c2] == res.screen[r2][c2] by {
            if r2 == wy && c2 == wx {
                assert(res.screen[r2][c2] == printed_cell(c, b));
                assert(r2 * w + c2 == m);
            } else {
                if r2 * w + c2 == m {
                    lemma_fundamental_div_mod_converse(m, w, r2, c2);
                    assert(r2 == q && c2 == rr);
                    if m == 0 {
                        assert(r2 == wy && c2 == wx);
                    } else if rr == 0 {
                        assert(r2 == wy && c2 == wx);
                    } else {
                        assert(r2 == wy && c2 == wx);
                    }
                    assert(false);
                }
                assert(res.screen[r2][c2] == filled_screen(c, bs, m)[r2][c2]);
            }
        }
        assert(res.screen =~~= filled_screen(c, bs, k)) by {
            assert forall|r2: int| 0 <= r2 < h implies res.screen[r2] =~= filled_screen(
                c,
                bs,
                k,
            )[r2] by {
                assert(t1.screen[r2].len() == w);
            }
        }
        // The cursor lands where the fill formula says.
        if rr + 1 < w {
            lemma_fundamental_div_mod_converse(k, w, q, rr + 1);
            assert(k % w == rr + 1 && k / w == q);
        } else {
            assert(k == (q + 1) * w + 0) by (nonlinear_arith)
                requires
                    k == m + 1,
                    m == w * q + rr,
                    rr + 1 == w,
            ;
            lemma_fundamental_div_mod_converse(k, w, q + 1, 0);
            assert(k % w == 0 && k / w == q + 1);
        }
        assert(wx == rr && wy == q);
        assert(res.cursor_x == filled_cx(c, k));
        assert(res.cursor_y == filled_cy(c, k));
        assert(res.wrap_pending == filled_pending(c, k));
        assert(spec_feed(c, bs.take(k)) =~~= (TermModel {
            screen: filled_screen(c, bs, k),
            cursor_x: filled_cx(c, k),
            cursor_y: filled_cy(c, k),
            wrap_pending: filled_pending(c, k),
            ..c
        }));
    }
}

/// Feeding only printable bytes, at most as many as the grid holds, into a
/// terminal whose cursor rests at the origin fills the cells row-major from
/// the top-left with exactly those bytes under the current attributes,
/// leaves every later cell untouched, and moves nothing into scrollback.
pub proof fn lemma_printable_fill(c: TermModel, bs: Seq<u8>)
    requires
        c.wf(),
        at_origin(c),
        all_printable(bs),
        bs.len() <= c.width * c.height,
    ensures
        spec_feed(c, bs).scrollback == c.scrollback,
        spec_feed(c, bs).width == c.width,
        spec_feed(c, bs).height == c.height,
        spec_feed(c, bs).screen.len() == c.height,
        forall|r: int, cl: int|
            0 <= r < c.height && 0 <= cl < c.width && r * c.width + cl < bs.len()
                ==> #[trigger] spec_feed(c, bs).screen[r][cl] == printed_cell(
                c,
                bs[r * c.width + cl],
            ),
        forall|r: int, cl: int|
            0 <= r < c.height && 0 <= cl < c.width && r * c.width + cl >= bs.len()
                ==> #[trigger] spec_feed(c, bs).screen[r][cl] == c.screen[r][cl],
{
    lemma_fill(c, bs, bs.len() as int);
    assert(bs.take(bs.len() as int) =~= bs);
}

/// Feeding exactly one printable byte more than the grid holds, into a
/// cleared terminal of at least two rows, scrolls exactly once: one row
/// enters scrollback — the old top row — and the surviving first screen row
/// is what was the second row, the second batch of `width` bytes. (With a
/// single row the scrolled-out row is the only row, so there is no second
/// row to survive.)
#[verifier::rlimit(30)]
pub proof fn lemma_one_scroll(c: TermModel, bs: Seq<u8>)
    requires
        c.wf(),
        at_origin(c),
        all_printable(bs),
        c.scrollback.len() == 0,
        c.height >= 2,
        bs.len() == c.width * c.height + 1,
    ensures
        spec_feed(c, bs).scrollback.len() == 1,
        spec_feed(c, bs).scrollback[0] == spec_feed(c, bs.take(bs.len() - 1)).screen[0],
        spec_feed(c, bs).screen[0] == spec_feed(c, bs.take(bs.len() - 1)).screen[1],
        forall|cl: int|
            0 <= cl < c.width ==> #[trigger] spec_feed(c, bs).screen[0][cl] == printed_cell(
                c,
                bs[c.width + cl],
            ),
        // The grid shifted up by exactly one row.
        forall|r: int|
            0 <= r < c.height - 1 ==> #[trigger] spec_feed(c, bs).screen[r] == spec_feed(
                c,
                bs.take(bs.len() - 1),
            ).screen[r + 1],
        // The overflowing byte sits at the start of the fresh last row.
        spec_feed(c, bs).screen[c.height - 1][0] == printed_cell(c, bs[c.width * c.height]),
        forall|cl: int|
            1 <= cl < c.width ==> #[trigger] spec_feed(c, bs).screen[c.height - 1][cl]
                == crate::terminal::blank_cell(),
{
    let w = c.width;
    let h = c.height;
    let n = w * h;
    assert(n >= 2) by (nonlinear_arith)
        requires
            w >= 1,
            h >= 2,
            n == w * h,
    ;
    lemma_fill(c, bs, n);
    let tfull = spec_feed(c, bs.take(n));
    assert(n == h * w + 0) by (nonlinear_arith)
        requires
            n == w * h,
    ;
    lemma_fundamental_div_mod_converse(n, w, h, 0);
    assert(n % w == 0 && n / w == h);
    assert(tfull.cursor_x == w - 1);
    assert(tfull.wrap_pending);
    assert(tfull.cursor_y == h - 1);
    let b = bs[n];
    assert(bs.take(n + 1) =~= bs);
    assert(bs.drop_last() =~= bs.take(n));
    assert(bs.last() == b);
    assert(spec_feed(c, bs) == spec_step(tfull, b));
    assert(is_printable(b));
    let t1 = spec_wrap(tfull);
    assert(t1 == spec_advance_line(tfull));
    let tsc = spec_scroll(TermModel { cursor_x: 0, wrap_pending: false, ..tfull });
    assert(t1 == tsc);
    assert(t1.scrollback =~= seq![tfull.screen[0]]);
    assert(t1.cursor_x == 0 && t1.cursor_y == h - 1);
    let res = spec_put_char(tfull, b as char);
    assert(res.scrollback == t1.scrollback);
    assert(res.screen == t1.screen.update(h - 1, t1.screen[h - 1].update(0, printed_cell(c, b))));
    assert(res.screen[0] == t1.screen[0]);
    assert(t1.screen[0] == tfull.screen.drop_first().push(crate::terminal::blank_row(w))[0]);
    assert(t1.screen[0] == tfull.screen[1]);
    assert forall|cl: int| 0 <= cl < w implies #[trigger] res.screen[0][cl] == printed_cell(
        c,
        bs[w + cl],
    ) by {
        assert(1 * w + cl < n) by (nonlinear_arith)
            requires
                w >= 1,
                h >= 2,
                n == w * h,
                0 <= cl < w,
        ;
        assert(tfull.screen[1][cl] == filled_screen(c, bs, n)[1][cl]);
        assert(filled_screen(c, bs, n)[1][cl] == printed_cell(c, bs[1 * w + cl]));
        assert(1 * w + cl == w + cl);
    }
    assert forall|r: int| 0 <= r < h - 1 implies #[trigger] res.screen[r]
        == tfull.screen[r + 1] by {
        assert(res.screen[r] == t1.screen[r]);
        assert(t1.screen[r] == tfull.screen.drop_first().push(crate::terminal::blank_row(w))[r]);
    }
    assert(t1.screen[h - 1] == tfull.screen.drop_first().push(crate::terminal::blank_row(w))[h
        - 1]);
    assert(t1.screen[h - 1] == crate::terminal::blank_row(w));
    assert(res.screen[h - 1] == t1.screen[h - 1].update(0, printed_cell(c, b)));
    assert(res.screen[h - 1][0] == printed_cell(c, b));
    assert forall|cl: int| 1 <= cl < w implies #[trigger] res.screen[h - 1][cl]
        == crate::terminal::blank_cell() by {
        assert(res.screen[h - 1][cl] == crate::terminal::blank_row(w)[cl]);
    }
}

/// After a resize, the grid has exactly the new dimensions and the
/// scrollback is untouched; every cell whose coordinates fall within both
/// the old and the new rectangle holds its previous content, and every
/// other cell is blank.
pub proof fn lemma_resize_cells(t: TermModel, w: int, h: int, r: int, cl: int)
    requires
        t.wf(),
        0 <= r < h,
        0 <= cl < w,
    ensures
        crate::terminal::spec_resize(t, w, h).screen.len() == h,
        crate::terminal::spec_resize(t, w, h).screen[r].len() == w,
        crate::terminal::spec_resize(t, w, h).scrollback == t.scrollback,
        r < t.height && cl < t.width ==> crate::terminal::spec_resize(t, w, h).screen[r][cl]
            == t.screen[r][cl],
        !(r < t.height && cl < t.width) ==> crate::terminal::spec_resize(t, w, h).screen[r][cl]
            == crate::terminal::blank_cell(),
{
}

/// Clearing yields a grid of default cells and an empty scrollback, whatever
/// the terminal held before.
pub proof fn lemma_clear_blank(t: TermModel, r: int, cl: int)
    requires
        t.wf(),
        0 <= r < t.height,
        0 <= cl < t.width,
    ensures
        crate::terminal::spec_clear(t).screen[r][cl] == crate::terminal::blank_cell(),
        crate::terminal::spec_clear(t).scrollback.len() == 0,
        crate::terminal::spec_clear(t).cursor_x == 0,
        crate::terminal::spec_clear(t).cursor_y == 0,
{
}

/// The byte form of the graphic-rendition reset sequence.
pub open spec fn sgr_reset_bytes() -> Seq<u8> {
    seq![0x1Bu8, 0x5Bu8, 0x30u8, 0x6Du8]
}

/// After a graphic-rendition reset, the painting attributes are cleared —
/// no foreground, no background, not bold — whatever they were before, and
/// nothing else changes; so every cell printed from here on, until the
/// attributes are changed again, carries none of them.
pub proof fn lemma_sgr_reset(t: TermModel)
    requires
        t.wf(),
        t.mode == Mode::Ground,
    ensures
        ({
            let r = spec_feed(t, sgr_reset_bytes());
            &&& r.fg is None
            &&& r.bg is None
            &&& !r.bold
            &&& r.mode == Mode::Ground
            &&& r == (TermModel {
                fg: None,
                bg: None,
                bold: false,
                csi_cur: 0,
                csi_cur_set: false,
                csi_skip: false,
                csi_params: Seq::empty(),
                ..t
            })
        }),
{
    let s1 = seq![0x1Bu8];
    let s2 = seq![0x1Bu8, 0x5Bu8];
    let s3 = seq![0x1Bu8, 0x5Bu8, 0x30u8];
    let s4 = sgr_reset_bytes();
    let t1 = spec_step(t, 0x1B);
    let t2 = spec_step(t1, 0x5B);
    let t3 = spec_step(t2, 0x30);
    let t4 = spec_step(t3, 0x6D);
    assert(spec_feed(t, Seq::<u8>::empty()) == t);
    assert(spec_feed(t, s1) == t1) by {
        assert(s1.drop_last() =~= Seq::<u8>::empty());
        assert(s1.last() == 0x1B);
    }
    assert(spec_feed(t, s2) == t2) by {
        assert(s2.drop_last() =~= s1);
        assert(s2.last() == 0x5B);
    }
    assert(spec_feed(t, s3) == t3) by {
        assert(s3.drop_last() =~= s2);
        assert(s3.last() == 0x30);
    }
    assert(spec_feed(t, s4) == t4) by {
        assert(s4.drop_last() =~= s3);
        assert(s4.last() == 0x6D);
    }
    assert(t1.mode == Mode::Escape);
    assert(t2.mode == Mode::Csi);
    assert(t2.csi_params =~= Seq::<u16>::empty());
    assert(t3.csi_cur == 0 && t3.csi_cur_set);
    let ps = crate::terminal::spec_csi_final_params(t3);
    assert(ps =~= seq![0u16]);
    let tg = TermModel {
        mode: Mode::Ground,
        csi_params: Seq::<u16>::empty(),
        csi_cur: 0,
        csi_cur_set: false,
        csi_skip: false,
        ..t3
    };
    assert(ps.drop_first() =~= Seq::<u16>::empty());
    assert(spec_sgr_seq(spec_sgr_one(tg, 0), Seq::<u16>::empty()) == spec_sgr_one(tg, 0));
    assert(spec_sgr_seq(tg, ps) == spec_sgr_one(tg, 0));
    assert(t4 == spec_sgr(tg, ps));
    assert(t4 =~~= (TermModel {
        fg: None,
        bg: None,
        bold: false,
        csi_cur: 0,
        csi_cur_set: false,
        csi_skip: false,
        csi_params: Seq::empty(),
        ..t
    }));
}

/// The cell that printing a byte writes carries the current attributes; in
/// particular, right after a graphic-rendition reset it has no foreground,
/// no background and no bold.
pub proof fn lemma_printed_cell_attrs(t: TermModel, b: u8)
    requires
        t.wf(),
        t.mode == Mode::Ground,
        is_printable(b),
    ensures
        ({
            let w = spec_wrap(t);
            spec_step(t, b).screen[w.cursor_y][w.cursor_x] == (Cell {
                ch: b as char,
                fg: t.fg,
                bg: t.bg,
                bold: t.bold,
            })
        }),
{
    lemma_helpers_wf(t, b);
    let w = spec_wrap(t);
    assert(w.cursor_x < w.width);
}

} // verus!

