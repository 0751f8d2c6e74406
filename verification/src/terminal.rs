//! A virtual terminal: a bounded character grid with scrollback, driven by a
//! byte stream that may contain ANSI control and escape sequences.
//!
//! The interpretation of the byte stream is defined by the specification
//! functions in this module ([`spec_step`] and [`spec_feed`]); the executable
//! methods are verified to follow them exactly.

use vstd::prelude::*;

verus! {

use vstd::pervasive::VecAdditionalExecFns;

/// Upper bound on the number of rows retained in scrollback.
pub const MAX_SCROLLBACK: usize = 10000;

/// Number of oldest scrollback rows dropped in one batch when the bound is hit.
pub const SCROLLBACK_DROP: usize = 1000;

/// Upper bound on grid width and height (pseudo-terminal sizes are 16-bit).
pub const MAX_DIM: usize = 65535;

/// Upper bound on the number of parameters kept for one control sequence.
pub const MAX_CSI_PARAMS: usize = 16;

/// One character cell of the grid: a glyph, optional foreground and
/// background color indices, and a bold flag.
#[derive(Clone, Copy, Debug)]
pub struct Cell {
    pub ch: char,
    pub fg: Option<u8>,
    pub bg: Option<u8>,
    pub bold: bool,
}

/// The default cell: a space with no colors and no bold.
pub open spec fn blank_cell() -> Cell {
    Cell { ch: ' ', fg: None, bg: None, bold: false }
}

impl Default for Cell {
    fn default() -> (c: Cell)
        ensures
            c == blank_cell(),
    {
        Cell { ch: ' ', fg: None, bg: None, bold: false }
    }
}

/// Parser mode: where in a control or multi-byte sequence the byte stream
/// currently stands.
#[derive(Clone, Copy, Debug, PartialEq, Eq, Structural)]
pub enum Mode {
    /// Plain text.
    Ground,
    /// An escape byte was seen.
    Escape,
    /// Inside a control sequence: collecting parameters.
    Csi,
    /// Inside an operating-system command or device-control string; consumed
    /// without effect until its terminator.
    Text,
    /// Inside a multi-byte encoded character.
    Utf8,
}

/// The mathematical state of a virtual terminal.
#[verifier::ext_equal]
pub ghost struct TermModel {
    pub width: int,
    pub height: int,
    pub screen: Seq<Seq<Cell>>,
    pub scrollback: Seq<Seq<Cell>>,
    pub cursor_x: int,
    pub cursor_y: int,
    pub wrap_pending: bool,
    pub fg: Option<u8>,
    pub bg: Option<u8>,
    pub bold: bool,
    pub mode: Mode,
    pub csi_params: Seq<u16>,
    pub csi_cur: u16,
    pub csi_cur_set: bool,
    pub csi_skip: bool,
    pub utf8_need: u8,
    pub utf8_acc: u32,
}

/// A row of blank cells.
pub open spec fn blank_row(width: int) -> Seq<Cell> {
    Seq::new(width as nat, |i: int| blank_cell())
}

/// A screen of blank rows.
pub open spec fn blank_screen(width: int, height: int) -> Seq<Seq<Cell>> {
    Seq::new(height as nat, |i: int| blank_row(width))
}

impl TermModel {
    /// Well-formedness: the grid matches the declared dimensions, the cursor
    /// is in bounds (a wrap deferred after writing the last column is held in
    /// [`TermModel::wrap_pending`], not in the column), and the scrollback
    /// respects its cap.
    pub open spec fn wf(self) -> bool {
        &&& 1 <= self.width <= MAX_DIM as int
        &&& 1 <= self.height <= MAX_DIM as int
        &&& self.screen.len() == self.height
        &&& forall|i: int|
            0 <= i < self.height ==> (#[trigger] self.screen[i]).len() == self.width
        &&& self.scrollback.len() <= MAX_SCROLLBACK as int
        &&& 0 <= self.cursor_x < self.width
        &&& 0 <= self.cursor_y < self.height
        &&& self.csi_params.len() <= MAX_CSI_PARAMS as int
    }

    /// The state of a freshly created terminal.
    pub open spec fn init(width: int, height: int) -> TermModel {
        TermModel {
            width,
            height,
            screen: blank_screen(width, height),
            scrollback: Seq::empty(),
            cursor_x: 0,
            cursor_y: 0,
            wrap_pending: false,
            fg: None,
            bg: None,
            bold: false,
            mode: Mode::Ground,
            csi_params: Seq::empty(),
            csi_cur: 0,
            csi_cur_set: false,
            csi_skip: false,
            utf8_need: 0,
            utf8_acc: 0,
        }
    }
}

// ---------------------------------------------------------------------------
// The interpretation of the byte stream, as mathematical functions on the
// model. Every executable mutation below is verified against these.
// ---------------------------------------------------------------------------

/// Moves the top screen row into scrollback (dropping the oldest block when
/// the cap is exceeded), appends a blank row at the bottom, and parks the
/// cursor on the last row.
pub open spec fn spec_scroll(t: TermModel) -> TermModel {
    let grown = t.scrollback.push(t.screen[0]);
    let trimmed = if grown.len() > MAX_SCROLLBACK as nat {
        grown.skip(SCROLLBACK_DROP as int)
    } else {
        grown
    };
    TermModel {
        screen: t.screen.drop_first().push(blank_row(t.width)),
        scrollback: trimmed,
        cursor_y: t.height - 1,
        ..t
    }
}

/// Column 0 of the next row, scrolling when the cursor already stands on the
/// last row; any deferred wrap is resolved.
pub open spec fn spec_advance_line(t: TermModel) -> TermModel {
    if t.cursor_y + 1 >= t.height {
        spec_scroll(TermModel { cursor_x: 0, wrap_pending: false, ..t })
    } else {
        TermModel { cursor_x: 0, cursor_y: t.cursor_y + 1, wrap_pending: false, ..t }
    }
}

/// Tab: the next multiple-of-8 column, advancing a line when that would leave
/// the row.
pub open spec fn spec_tab(t: TermModel) -> TermModel {
    let nx = ((t.cursor_x / 8) + 1) * 8;
    if nx >= t.width {
        spec_advance_line(t)
    } else {
        TermModel { cursor_x: nx, ..t }
    }
}

/// The effect of a control byte: line feed, carriage return, tab and
/// backspace act; every other control byte is ignored. Backspace first
/// resolves a deferred wrap, standing still on the last written column.
pub open spec fn spec_ctrl(t: TermModel, b: u8) -> TermModel {
    if b == 0x0A {
        spec_advance_line(t)
    } else if b == 0x0D {
        TermModel { cursor_x: 0, wrap_pending: false, ..t }
    } else if b == 0x09 {
        spec_tab(t)
    } else if b == 0x08 {
        if t.wrap_pending {
            TermModel { wrap_pending: false, ..t }
        } else {
            TermModel { cursor_x: if t.cursor_x > 0 { t.cursor_x - 1 } else { 0 }, ..t }
        }
    } else {
        t
    }
}

/// The cursor before a write: unchanged unless a wrap is pending from the
/// last column, in which case the line is advanced first.
pub open spec fn spec_wrap(t: TermModel) -> TermModel {
    if t.wrap_pending {
        spec_advance_line(t)
    } else {
        t
    }
}

/// Writes one glyph with the current attributes at the cursor, resolving a
/// pending wrap first (scrolling if needed). Writing the last column of a
/// row leaves the cursor on it and defers the wrap to the next write.
pub open spec fn spec_put_char(t: TermModel, c: char) -> TermModel {
    let t1 = spec_wrap(t);
    let written = TermModel {
        screen: t1.screen.update(
            t1.cursor_y,
            t1.screen[t1.cursor_y].update(
                t1.cursor_x,
                Cell { ch: c, fg: t1.fg, bg: t1.bg, bold: t1.bold },
            ),
        ),
        ..t1
    };
    if t1.cursor_x + 1 == t1.width {
        TermModel { wrap_pending: true, ..written }
    } else {
        TermModel { cursor_x: t1.cursor_x + 1, ..written }
    }
}

/// Every cell blank, cursor at the origin; scrollback and attributes kept.
pub open spec fn spec_clear_screen(t: TermModel) -> TermModel {
    TermModel {
        screen: blank_screen(t.width, t.height),
        cursor_x: 0,
        cursor_y: 0,
        wrap_pending: false,
        ..t
    }
}

/// Blanks the cells from the cursor to the end of its row; with a wrap
/// pending the cursor logically rests past the row, so nothing is erased.
pub open spec fn spec_erase_line(t: TermModel) -> TermModel {
    let start = if t.wrap_pending {
        t.width
    } else {
        t.cursor_x
    };
    let row = t.screen[t.cursor_y];
    let row2 = Seq::new(row.len(), |i: int| if i >= start { blank_cell() } else { row[i] });
    TermModel { screen: t.screen.update(t.cursor_y, row2), ..t }
}

/// Moves the cursor to the given 1-based row and column, clamped to the grid.
pub open spec fn spec_cursor_to(t: TermModel, pr: u16, pc: u16) -> TermModel {
    let ry: int = if pr as int >= 1 { pr as int - 1 } else { 0 };
    let rx: int = if pc as int >= 1 { pc as int - 1 } else { 0 };
    TermModel {
        cursor_y: if ry > t.height - 1 { t.height - 1 } else { ry },
        cursor_x: if rx > t.width - 1 { t.width - 1 } else { rx },
        wrap_pending: false,
        ..t
    }
}

/// One select-graphic-rendition code: reset, bold on/off, or a color index;
/// unrecognized codes are ignored.
pub open spec fn spec_sgr_one(t: TermModel, code: u16) -> TermModel {
    if code == 0 {
        TermModel { fg: None, bg: None, bold: false, ..t }
    } else if code == 1 {
        TermModel { bold: true, ..t }
    } else if code == 22 {
        TermModel { bold: false, ..t }
    } else if 30 <= code <= 37 {
        TermModel { fg: Some((code - 30) as u8), ..t }
    } else if 40 <= code <= 47 {
        TermModel { bg: Some((code - 40) as u8), ..t }
    } else {
        t
    }
}

/// Applies select-graphic-rendition codes left to right.
pub open spec fn spec_sgr_seq(t: TermModel, params: Seq<u16>) -> TermModel
    decreases params.len(),
{
    if params.len() == 0 {
        t
    } else {
        spec_sgr_seq(spec_sgr_one(t, params[0]), params.drop_first())
    }
}

/// Select-graphic-rendition: an empty parameter list is a full reset.
pub open spec fn spec_sgr(t: TermModel, params: Seq<u16>) -> TermModel {
    if params.len() == 0 {
        TermModel { fg: None, bg: None, bold: false, ..t }
    } else {
        spec_sgr_seq(t, params)
    }
}

/// The parameter list handed to a control-sequence final byte: the pending
/// number is appended; a trailing separator contributes an explicit 0.
pub open spec fn spec_csi_final_params(t: TermModel) -> Seq<u16> {
    if t.csi_cur_set {
        if t.csi_params.len() < MAX_CSI_PARAMS as int {
            t.csi_params.push(t.csi_cur)
        } else {
            t.csi_params
        }
    } else if t.csi_params.len() > 0 {
        if t.csi_params.len() < MAX_CSI_PARAMS as int {
            t.csi_params.push(0)
        } else {
            t.csi_params
        }
    } else {
        Seq::empty()
    }
}

/// A control-sequence final byte: cursor position, erase display, erase line,
/// and graphic rendition act; everything else is accepted without effect.
pub open spec fn spec_csi_dispatch(t: TermModel, b: u8) -> TermModel {
    let ps = spec_csi_final_params(t);
    let tg = TermModel {
        mode: Mode::Ground,
        csi_params: Seq::empty(),
        csi_cur: 0,
        csi_cur_set: false,
        csi_skip: false,
        ..t
    };
    if b == 0x48 || b == 0x66 {  // 'H' | 'f'
        let pr = if ps.len() >= 1 { ps[0] } else { 1 };
        let pc = if ps.len() >= 2 { ps[1] } else { 1 };
        spec_cursor_to(tg, pr, pc)
    } else if b == 0x4A {  // 'J'
        let p = if ps.len() >= 1 { ps[0] } else { 0 };
        if p == 2 {
            spec_clear_screen(tg)
        } else {
            tg
        }
    } else if b == 0x4B {  // 'K'
        spec_erase_line(tg)
    } else if b == 0x6D {  // 'm'
        spec_sgr(tg, ps)
    } else {
        tg
    }
}

/// A byte arriving in plain text: controls act, printable bytes are written,
/// the escape byte and multi-byte leads switch modes, stray bytes are ignored.
pub open spec fn spec_ground(t: TermModel, b: u8) -> TermModel {
    if b == 0x1B {
        TermModel { mode: Mode::Escape, ..t }
    } else if b < 0x20 || b == 0x7F {
        spec_ctrl(t, b)
    } else if b < 0x80 {
        spec_put_char(t, b as char)
    } else if 0xC2 <= b <= 0xDF {
        TermModel { mode: Mode::Utf8, utf8_need: 1, utf8_acc: (b & 0x1F) as u32, ..t }
    } else if 0xE0 <= b <= 0xEF {
        TermModel { mode: Mode::Utf8, utf8_need: 2, utf8_acc: (b & 0x0F) as u32, ..t }
    } else if 0xF0 <= b <= 0xF4 {
        TermModel { mode: Mode::Utf8, utf8_need: 3, utf8_acc: (b & 0x07) as u32, ..t }
    } else {
        t
    }
}

/// A byte after the escape byte: `[` opens a control sequence; the string
/// introducers open a string body; intermediates are skipped; any other final
/// is consumed without effect.
pub open spec fn spec_escape(t: TermModel, b: u8) -> TermModel {
    if b == 0x5B {  // '['
        TermModel {
            mode: Mode::Csi,
            csi_params: Seq::empty(),
            csi_cur: 0,
            csi_cur_set: false,
            csi_skip: false,
            ..t
        }
    } else if b == 0x5D || b == 0x50 || b == 0x58 || b == 0x5E || b == 0x5F {
        TermModel { mode: Mode::Text, ..t }
    } else if 0x20 <= b <= 0x2F {
        t
    } else if b == 0x1B {
        t
    } else {
        TermModel { mode: Mode::Ground, ..t }
    }
}

/// A byte inside a control sequence: digits build a parameter (saturating),
/// the separator closes one, a colon opens a subparameter whose digits are
/// discarded until the next separator, controls still act, and a final byte
/// dispatches.
pub open spec fn spec_csi_byte(t: TermModel, b: u8) -> TermModel {
    if b == 0x1B {
        TermModel {
            mode: Mode::Escape,
            csi_params: Seq::empty(),
            csi_cur: 0,
            csi_cur_set: false,
            csi_skip: false,
            ..t
        }
    } else if b < 0x20 {
        spec_ctrl(t, b)
    } else if b <= 0x2F {
        t
    } else if 0x30 <= b <= 0x39 {
        if t.csi_skip {
            t
        } else {
            let v = t.csi_cur as int * 10 + (b - 0x30) as int;
            TermModel {
                csi_cur: if v > 0xFFFF { 0xFFFF as u16 } else { v as u16 },
                csi_cur_set: true,
                ..t
            }
        }
    } else if b == 0x3A {  // ':'
        TermModel { csi_skip: true, ..t }
    } else if b == 0x3B {  // ';'
        let ps = if t.csi_params.len() < MAX_CSI_PARAMS as int {
            t.csi_params.push(if t.csi_cur_set { t.csi_cur } else { 0 })
        } else {
            t.csi_params
        };
        TermModel { csi_params: ps, csi_cur: 0, csi_cur_set: false, csi_skip: false, ..t }
    } else if b <= 0x3F {
        t
    } else if b <= 0x7E {
        spec_csi_dispatch(t, b)
    } else {
        t
    }
}

/// A byte inside a string body: the bell terminates it, the escape byte
/// leaves it, everything else is consumed without effect.
pub open spec fn spec_text_byte(t: TermModel, b: u8) -> TermModel {
    if b == 0x07 {
        TermModel { mode: Mode::Ground, ..t }
    } else if b == 0x1B {
        TermModel { mode: Mode::Escape, ..t }
    } else {
        t
    }
}

/// A byte inside a multi-byte encoded character: continuation bytes extend
/// the accumulated value; when complete, a valid scalar is written and
/// anything else is dropped; a non-continuation byte aborts the sequence and
/// is reinterpreted as plain text.
pub open spec fn spec_utf8_byte(t: TermModel, b: u8) -> TermModel {
    if 0x80 <= b <= 0xBF {
        let acc2: u32 = (t.utf8_acc << 6u32) | ((b & 0x3F) as u32);
        if t.utf8_need <= 1 {
            let tg = TermModel { mode: Mode::Ground, utf8_acc: acc2, ..t };
            if vstd::utf8::is_scalar(acc2) {
                spec_put_char(tg, acc2 as char)
            } else {
                tg
            }
        } else {
            TermModel { utf8_need: (t.utf8_need - 1) as u8, utf8_acc: acc2, ..t }
        }
    } else {
        spec_ground(TermModel { mode: Mode::Ground, ..t }, b)
    }
}

/// One byte of input, dispatched on the current parser mode.
pub open spec fn spec_step(t: TermModel, b: u8) -> TermModel {
    match t.mode {
        Mode::Ground => spec_ground(t, b),
        Mode::Escape => spec_escape(t, b),
        Mode::Csi => spec_csi_byte(t, b),
        Mode::Text => spec_text_byte(t, b),
        Mode::Utf8 => spec_utf8_byte(t, b),
    }
}

/// A whole byte sequence, left to right.
pub open spec fn spec_feed(t: TermModel, bs: Seq<u8>) -> TermModel
    decreases bs.len(),
{
    if bs.len() == 0 {
        t
    } else {
        spec_step(spec_feed(t, bs.drop_last()), bs.last())
    }
}

/// Feeding a concatenation is feeding its parts in turn.
pub proof fn lemma_feed_append(t: TermModel, a: Seq<u8>, b: Seq<u8>)
    ensures
        spec_feed(t, a + b) == spec_feed(spec_feed(t, a), b),
    decreases b.len(),
{
    if b.len() == 0 {
        assert(a + b =~= a);
    } else {
        lemma_feed_append(t, a, b.drop_last());
        assert((a + b).drop_last() =~= a + b.drop_last());
        assert((a + b).last() == b.last());
    }
}

/// The grid after a change of dimensions: cells inside both the old and the
/// new rectangle survive, everything else is blank; the cursor is clamped;
/// scrollback, attributes and parser state are kept.
pub open spec fn spec_resize(t: TermModel, w: int, h: int) -> TermModel {
    TermModel {
        width: w,
        height: h,
        screen: Seq::new(
            h as nat,
            |y: int|
                Seq::new(
                    w as nat,
                    |x: int|
                        if y < t.height && x < t.width {
                            t.screen[y][x]
                        } else {
                            blank_cell()
                        },
                ),
        ),
        cursor_x: if t.cursor_x > w - 1 { w - 1 } else { t.cursor_x },
        cursor_y: if t.cursor_y > h - 1 { h - 1 } else { t.cursor_y },
        wrap_pending: false,
        ..t
    }
}

/// A blank grid and an empty scrollback; attributes and parser state are kept.
pub open spec fn spec_clear(t: TermModel) -> TermModel {
    TermModel {
        screen: blank_screen(t.width, t.height),
        scrollback: Seq::empty(),
        cursor_x: 0,
        cursor_y: 0,
        wrap_pending: false,
        ..t
    }
}

/// The executable virtual terminal. Its abstraction is a [`TermModel`].
pub struct VirtualTerminal {
    width: usize,
    height: usize,
    screen: Vec<Vec<Cell>>,
    scrollback: Vec<Vec<Cell>>,
    cursor_x: usize,
    cursor_y: usize,
    wrap_pending: bool,
    current_fg: Option<u8>,
    current_bg: Option<u8>,
    current_bold: bool,
    mode: Mode,
    csi_params: Vec<u16>,
    csi_cur: u16,
    csi_cur_set: bool,
    csi_skip: bool,
    utf8_need: u8,
    utf8_acc: u32,
}

impl View for VirtualTerminal {
    type V = TermModel;

    closed spec fn view(&self) -> TermModel {
        TermModel {
            width: self.width as int,
            height: self.height as int,
            screen: self.screen@.map_values(|r: Vec<Cell>| r@),
            scrollback: self.scrollback@.map_values(|r: Vec<Cell>| r@),
            cursor_x: self.cursor_x as int,
            cursor_y: self.cursor_y as int,
            wrap_pending: self.wrap_pending,
            fg: self.current_fg,
            bg: self.current_bg,
            bold: self.current_bold,
            mode: self.mode,
            csi_params: self.csi_params@,
            csi_cur: self.csi_cur,
            csi_cur_set: self.csi_cur_set,
            csi_skip: self.csi_skip,
            utf8_need: self.utf8_need,
            utf8_acc: self.utf8_acc,
        }
    }
}

impl VirtualTerminal {
    /// Well-formedness of the abstraction; established by the constructor and
    /// preserved by every method.
    pub open spec fn wf(&self) -> bool {
        self@.wf()
    }

    /// Creates a blank terminal of the given dimensions.
    pub fn new(width: usize, height: usize) -> (t: VirtualTerminal)
        requires
            1 <= width <= MAX_DIM,
            1 <= height <= MAX_DIM,
        ensures
            t@ == TermModel::init(width as int, height as int),
            t.wf(),
    {
        let mut screen: Vec<Vec<Cell>> = Vec::new();
        let mut y: usize = 0;
        while y < height
            invariant
                y <= height,
                1 <= width <= MAX_DIM,
                screen@.len() == y,
                forall|i: int| 0 <= i < y ==> #[trigger] screen@[i]@ =~= blank_row(width as int),
            decreases height - y,
        {
            screen.push(blank_row_exec(width));
            y += 1;
        }
        let t = VirtualTerminal {
            width,
            height,
            screen,
            scrollback: Vec::new(),
            cursor_x: 0,
            cursor_y: 0,
            wrap_pending: false,
            current_fg: None,
            current_bg: None,
            current_bold: false,
            mode: Mode::Ground,
            csi_params: Vec::new(),
            csi_cur: 0,
            csi_cur_set: false,
            csi_skip: false,
            utf8_need: 0,
            utf8_acc: 0,
        };
        proof {
            assert(t@.screen =~= blank_screen(width as int, height as int));
            assert(t@ =~~= TermModel::init(width as int, height as int));
        }
        t
    }
}

impl VirtualTerminal {
    /// Moves the top row to scrollback, trims the scrollback when over its
    /// cap, appends a blank bottom row, and parks the cursor on the last row.
    fn scroll_up(&mut self)
        requires
            old(self).wf(),
        ensures
            final(self)@ == spec_scroll(old(self)@),
            final(self).wf(),
    {
        let top = self.screen.remove(0);
        self.scrollback.push(top);
        proof {
            assert(self@.screen =~= old(self)@.screen.drop_first());
            assert(self@.scrollback =~= old(self)@.scrollback.push(old(self)@.screen[0]));
        }
        if self.scrollback.len() > MAX_SCROLLBACK {
            let kept = self.scrollback.split_off(SCROLLBACK_DROP);
            self.scrollback = kept;
            proof {
                assert(self@.scrollback =~= old(self)@.scrollback.push(old(self)@.screen[0]).skip(
                    SCROLLBACK_DROP as int,
                ));
            }
        }
        let w = self.width;
        self.screen.push(blank_row_exec(w));
        self.cursor_y = self.height - 1;
        proof {
            assert(self@.screen =~= spec_scroll(old(self)@).screen);
            assert(self@ =~~= spec_scroll(old(self)@));
        }
    }

    /// Column 0 of the next row, scrolling when already on the last row; any
    /// deferred wrap is resolved.
    fn advance_line(&mut self)
        requires
            old(self).wf(),
        ensures
            final(self)@ == spec_advance_line(old(self)@),
            final(self).wf(),
    {
        self.cursor_x = 0;
        self.wrap_pending = false;
        if self.cursor_y + 1 >= self.height {
            self.scroll_up();
        } else {
            self.cursor_y = self.cursor_y + 1;
        }
        proof {
            assert(self@ =~~= spec_advance_line(old(self)@));
        }
    }

    /// Applies one control byte.
    fn do_ctrl(&mut self, b: u8)
        requires
            old(self).wf(),
        ensures
            final(self)@ == spec_ctrl(old(self)@, b),
            final(self).wf(),
    {
        if b == 0x0A {
            self.advance_line();
        } else if b == 0x0D {
            self.cursor_x = 0;
            self.wrap_pending = false;
        } else if b == 0x09 {
            let nx = ((self.cursor_x / 8) + 1) * 8;
            if nx >= self.width {
                self.advance_line();
            } else {
                self.cursor_x = nx;
            }
        } else if b == 0x08 {
            if self.wrap_pending {
                self.wrap_pending = false;
            } else if self.cursor_x > 0 {
                self.cursor_x = self.cursor_x - 1;
            }
        }
        proof {
            assert(self@ =~~= spec_ctrl(old(self)@, b));
        }
    }

    /// Writes one glyph with the current attributes, resolving a pending
    /// wrap first; writing the last column defers the next wrap instead of
    /// leaving the row.
    fn put_char(&mut self, c: char)
        requires
            old(self).wf(),
        ensures
            final(self)@ == spec_put_char(old(self)@, c),
            final(self).wf(),
    {
        if self.wrap_pending {
            self.advance_line();
        }
        let cell = Cell {
            ch: c,
            fg: self.current_fg,
            bg: self.current_bg,
            bold: self.current_bold,
        };
        let y = self.cursor_y;
        let mut row: Vec<Cell> = Vec::new();
        self.screen.set_and_swap(y, &mut row);
        row.set(self.cursor_x, cell);
        self.screen.set_and_swap(y, &mut row);
        if self.cursor_x + 1 == self.width {
            self.wrap_pending = true;
        } else {
            self.cursor_x = self.cursor_x + 1;
        }
        proof {
            assert(self@.screen =~= spec_put_char(old(self)@, c).screen);
            assert(self@ =~~= spec_put_char(old(self)@, c));
        }
    }

    /// Blanks the whole grid and homes the cursor.
    fn clear_screen(&mut self)
        requires
            old(self).wf(),
        ensures
            final(self)@ == spec_clear_screen(old(self)@),
            final(self).wf(),
    {
        let w = self.width;
        let h = self.height;
        self.screen = blank_screen_exec(w, h);
        self.cursor_x = 0;
        self.cursor_y = 0;
        self.wrap_pending = false;
        proof {
            assert(self@ =~~= spec_clear_screen(old(self)@));
        }
    }

    /// Blanks the cells from the cursor to the end of its row; with a wrap
    /// pending the cursor logically rests past the row, so nothing is erased.
    fn erase_line(&mut self)
        requires
            old(self).wf(),
        ensures
            final(self)@ == spec_erase_line(old(self)@),
            final(self).wf(),
    {
        let y = self.cursor_y;
        let mut row: Vec<Cell> = Vec::new();
        self.screen.set_and_swap(y, &mut row);
        let ghost orig = row@;
        let start = if self.wrap_pending {
            self.width
        } else {
            self.cursor_x
        };
        let mut x = start;
        while x < self.width
            invariant
                old(self).wf(),
                start as int == (if old(self)@.wrap_pending {
                    old(self)@.width
                } else {
                    old(self)@.cursor_x
                }),
                start <= x <= old(self)@.width,
                self.width == old(self)@.width,
                row@.len() == orig.len() == old(self)@.width,
                forall|i: int|
                    0 <= i < row@.len() ==> #[trigger] row@[i] == (
                    if start <= i < x {
                        blank_cell()
                    } else {
                        orig[i]
                    }),
            decreases self.width - x,
        {
            row.set(x, Cell { ch: ' ', fg: None, bg: None, bold: false });
            x += 1;
        }
        self.screen.set_and_swap(y, &mut row);
        proof {
            assert(self@.screen =~~= spec_erase_line(old(self)@).screen);
            assert(self@ =~~= spec_erase_line(old(self)@));
        }
    }

    /// Moves the cursor to a 1-based position, clamped to the grid.
    fn cursor_to(&mut self, pr: u16, pc: u16)
        requires
            old(self).wf(),
        ensures
            final(self)@ == spec_cursor_to(old(self)@, pr, pc),
            final(self).wf(),
    {
        let ry: usize = if pr >= 1 { (pr - 1) as usize } else { 0 };
        let rx: usize = if pc >= 1 { (pc - 1) as usize } else { 0 };
        self.cursor_y = if ry > self.height - 1 { self.height - 1 } else { ry };
        self.cursor_x = if rx > self.width - 1 { self.width - 1 } else { rx };
        self.wrap_pending = false;
        proof {
            assert(self@ =~~= spec_cursor_to(old(self)@, pr, pc));
        }
    }

    /// Applies one select-graphic-rendition code.
    fn apply_sgr_code(&mut self, code: u16)
        requires
            old(self).wf(),
        ensures
            final(self)@ == spec_sgr_one(old(self)@, code),
            final(self).wf(),
    {
        if code == 0 {
            self.current_fg = None;
            self.current_bg = None;
            self.current_bold = false;
        } else if code == 1 {
            self.current_bold = true;
        } else if code == 22 {
            self.current_bold = false;
        } else if 30 <= code && code <= 37 {
            self.current_fg = Some((code - 30) as u8);
        } else if 40 <= code && code <= 47 {
            self.current_bg = Some((code - 40) as u8);
        }
        proof {
            assert(self@ =~~= spec_sgr_one(old(self)@, code));
        }
    }

    /// Handles a control-sequence final byte: collects the finished parameter
    /// list, leaves the sequence, and performs the selected action.
    fn csi_dispatch(&mut self, b: u8)
        requires
            old(self).wf(),
            0x40 <= b <= 0x7E,
            old(self)@.mode == Mode::Csi,
        ensures
            final(self)@ == spec_csi_dispatch(old(self)@, b),
            final(self).wf(),
    {
        let mut ps: Vec<u16> = Vec::new();
        core::mem::swap(&mut self.csi_params, &mut ps);
        if self.csi_cur_set {
            if ps.len() < MAX_CSI_PARAMS {
                ps.push(self.csi_cur);
            }
        } else if ps.len() > 0 {
            if ps.len() < MAX_CSI_PARAMS {
                ps.push(0);
            }
        }
        self.csi_cur = 0;
        self.csi_cur_set = false;
        self.csi_skip = false;
        self.mode = Mode::Ground;
        proof {
            assert(ps@ =~= spec_csi_final_params(old(self)@));
            assert(self@ =~~= (TermModel {
                mode: Mode::Ground,
                csi_params: Seq::empty(),
                csi_cur: 0,
                csi_cur_set: false,
                csi_skip: false,
                ..old(self)@
            }));
        }
        let ghost tg = self@;
        if b == 0x48 || b == 0x66 {
            let pr: u16 = if ps.len() >= 1 { ps[0] } else { 1 };
            let pc: u16 = if ps.len() >= 2 { ps[1] } else { 1 };
            self.cursor_to(pr, pc);
        } else if b == 0x4A {
            let p: u16 = if ps.len() >= 1 { ps[0] } else { 0 };
            if p == 2 {
                self.clear_screen();
            }
        } else if b == 0x4B {
            self.erase_line();
        } else if b == 0x6D {
            if ps.len() == 0 {
                self.current_fg = None;
                self.current_bg = None;
                self.current_bold = false;
            } else {
                proof {
                    assert(ps@.skip(0) =~= ps@);
                }
                let mut i: usize = 0;
                while i < ps.len()
                    invariant
                        i <= ps@.len(),
                        self.wf(),
                        spec_sgr_seq(tg, ps@) == spec_sgr_seq(self@, ps@.skip(i as int)),
                    decreases ps@.len() - i,
                {
                    proof {
                        assert(ps@.skip(i as int).drop_first() =~= ps@.skip(i as int + 1));
                        assert(ps@.skip(i as int)[0] == ps@[i as int]);
                    }
                    let code = ps[i];
                    self.apply_sgr_code(code);
                    i += 1;
                }
                proof {
                    assert(ps@.skip(ps@.len() as int) =~= Seq::<u16>::empty());
                }
            }
        }
        proof {
            assert(self@ =~~= spec_csi_dispatch(old(self)@, b));
        }
    }

    /// Handles one byte arriving in plain text.
    fn ground_byte(&mut self, b: u8)
        requires
            old(self).wf(),
        ensures
            final(self)@ == spec_ground(old(self)@, b),
            final(self).wf(),
    {
        if b == 0x1B {
            self.mode = Mode::Escape;
        } else if b < 0x20 || b == 0x7F {
            self.do_ctrl(b);
        } else if b < 0x80 {
            self.put_char(b as char);
        } else if 0xC2 <= b && b <= 0xDF {
            self.mode = Mode::Utf8;
            self.utf8_need = 1;
            self.utf8_acc = (b & 0x1F) as u32;
        } else if 0xE0 <= b && b <= 0xEF {
            self.mode = Mode::Utf8;
            self.utf8_need = 2;
            self.utf8_acc = (b & 0x0F) as u32;
        } else if 0xF0 <= b && b <= 0xF4 {
            self.mode = Mode::Utf8;
            self.utf8_need = 3;
            self.utf8_acc = (b & 0x07) as u32;
        }
        proof {
            assert(self@ =~~= spec_ground(old(self)@, b));
        }
    }

    /// Handles one byte inside a control sequence.
    fn csi_byte(&mut self, b: u8)
        requires
            old(self).wf(),
            old(self)@.mode == Mode::Csi,
        ensures
            final(self)@ == spec_csi_byte(old(self)@, b),
            final(self).wf(),
    {
        if b == 0x1B {
            self.mode = Mode::Escape;
            self.csi_params = Vec::new();
            self.csi_cur = 0;
            self.csi_cur_set = false;
            self.csi_skip = false;
        } else if b < 0x20 {
            self.do_ctrl(b);
        } else if b <= 0x2F {
        } else if 0x30 <= b && b <= 0x39 {
            if !self.csi_skip {
                let v: u32 = (self.csi_cur as u32) * 10 + ((b - 0x30) as u32);
                self.csi_cur = if v > 0xFFFF { 0xFFFF } else { v as u16 };
                self.csi_cur_set = true;
            }
        } else if b == 0x3A {
            self.csi_skip = true;
        } else if b == 0x3B {
            if self.csi_params.len() < MAX_CSI_PARAMS {
                let val = if self.csi_cur_set { self.csi_cur } else { 0 };
                self.csi_params.push(val);
            }
            self.csi_cur = 0;
            self.csi_cur_set = false;
            self.csi_skip = false;
        } else if b <= 0x3F {
        } else if b <= 0x7E {
            self.csi_dispatch(b);
        }
        proof {
            assert(self@ =~~= spec_csi_byte(old(self)@, b));
        }
    }

    /// Handles one byte inside a multi-byte encoded character.
    fn utf8_byte(&mut self, b: u8)
        requires
            old(self).wf(),
        ensures
            final(self)@ == spec_utf8_byte(old(self)@, b),
            final(self).wf(),
    {
        if 0x80 <= b && b <= 0xBF {
            let acc2: u32 = (self.utf8_acc << 6u32) | ((b & 0x3F) as u32);
            if self.utf8_need <= 1 {
                self.mode = Mode::Ground;
                self.utf8_acc = acc2;
                match char_from_scalar(acc2) {
                    Some(c) => self.put_char(c),
                    None => {},
                }
            } else {
                self.utf8_need = self.utf8_need - 1;
                self.utf8_acc = acc2;
            }
        } else {
            self.mode = Mode::Ground;
            self.ground_byte(b);
        }
        proof {
            assert(self@ =~~= spec_utf8_byte(old(self)@, b));
        }
    }

    /// Feeds one byte through the parser.
    fn advance_byte(&mut self, b: u8)
        requires
            old(self).wf(),
        ensures
            final(self)@ == spec_step(old(self)@, b),
            final(self).wf(),
    {
        match self.mode {
            Mode::Ground => self.ground_byte(b),
            Mode::Escape => {
                if b == 0x5B {
                    self.mode = Mode::Csi;
                    self.csi_params = Vec::new();
                    self.csi_cur = 0;
                    self.csi_cur_set = false;
                    self.csi_skip = false;
                } else if b == 0x5D || b == 0x50 || b == 0x58 || b == 0x5E || b == 0x5F {
                    self.mode = Mode::Text;
                } else if 0x20 <= b && b <= 0x2F {
                } else if b == 0x1B {
                } else {
                    self.mode = Mode::Ground;
                }
                proof {
                    assert(self@ =~~= spec_escape(old(self)@, b));
                }
            },
            Mode::Csi => self.csi_byte(b),
            Mode::Text => {
                if b == 0x07 {
                    self.mode = Mode::Ground;
                } else if b == 0x1B {
                    self.mode = Mode::Escape;
                }
                proof {
                    assert(self@ =~~= spec_text_byte(old(self)@, b));
                }
            },
            Mode::Utf8 => self.utf8_byte(b),
        }
    }

    /// Interprets the bytes as a continuation of the ongoing parse, mutating
    /// grid, scrollback, cursor and attributes; it never fails, and
    /// unrecognized sequences are consumed without effect.
    pub fn feed_bytes(&mut self, data: &[u8])
        requires
            old(self).wf(),
        ensures
            final(self)@ == spec_feed(old(self)@, data@),
            final(self).wf(),
    {
        let n = data.len();
        let mut i: usize = 0;
        while i < n
            invariant
                i <= n == data@.len(),
                self@ == spec_feed(old(self)@, data@.take(i as int)),
                self.wf(),
            decreases n - i,
        {
            let b = data[i];
            self.advance_byte(b);
            proof {
                assert(data@.take(i as int + 1).drop_last() =~= data@.take(i as int));
                assert(data@.take(i as int + 1).last() == data@[i as int]);
            }
            i += 1;
        }
        proof {
            assert(data@.take(data@.len() as int) =~= data@);
        }
    }

    /// Reallocates the grid to the new dimensions, keeping every cell whose
    /// coordinates fall within both rectangles and clamping the cursor.
    pub fn resize(&mut self, width: usize, height: usize)
        requires
            old(self).wf(),
            1 <= width <= MAX_DIM,
            1 <= height <= MAX_DIM,
        ensures
            final(self)@ == spec_resize(old(self)@, width as int, height as int),
            final(self).wf(),
    {
        let oh = self.height;
        let ow = self.width;
        let mut ns: Vec<Vec<Cell>> = Vec::new();
        let mut y: usize = 0;
        while y < height
            invariant
                old(self).wf(),
                y <= height,
                oh == old(self)@.height,
                ow == old(self)@.width,
                *self == *old(self),
                ns@.len() == y,
                forall|i: int|
                    0 <= i < y ==> #[trigger] ns@[i]@ =~= spec_resize(
                        old(self)@,
                        width as int,
                        height as int,
                    ).screen[i],
            decreases height - y,
        {
            let mut row: Vec<Cell> = Vec::new();
            let mut x: usize = 0;
            while x < width
                invariant
                    old(self).wf(),
                    y < height,
                    x <= width,
                    oh == old(self)@.height,
                    ow == old(self)@.width,
                    *self == *old(self),
                    row@.len() == x,
                    forall|j: int|
                        0 <= j < x ==> #[trigger] row@[j] == (
                        if y < oh && j < ow {
                            old(self)@.screen[y as int][j]
                        } else {
                            blank_cell()
                        }),
                decreases width - x,
            {
                if y < oh && x < ow {
                    let c = self.screen[y][x];
                    row.push(c);
                } else {
                    row.push(Cell { ch: ' ', fg: None, bg: None, bold: false });
                }
                x += 1;
            }
            ns.push(row);
            y += 1;
        }
        self.screen = ns;
        self.width = width;
        self.height = height;
        if self.cursor_x > width - 1 {
            self.cursor_x = width - 1;
        }
        if self.cursor_y > height - 1 {
            self.cursor_y = height - 1;
        }
        self.wrap_pending = false;
        proof {
            assert(self@.screen =~~= spec_resize(old(self)@, width as int, height as int).screen);
            assert(self@ =~~= spec_resize(old(self)@, width as int, height as int));
        }
    }

    /// Resets every cell to default and empties the scrollback; attributes
    /// and parser state are unaffected.
    pub fn clear(&mut self)
        requires
            old(self).wf(),
        ensures
            final(self)@ == spec_clear(old(self)@),
            final(self).wf(),
    {
        self.clear_screen();
        self.scrollback = Vec::new();
        proof {
            assert(self@ =~~= spec_clear(old(self)@));
        }
    }

    /// Read-only view of the grid, row-major.
    pub fn get_screen(&self) -> (r: &Vec<Vec<Cell>>)
        ensures
            r@.map_values(|row: Vec<Cell>| row@) == self@.screen,
    {
        &self.screen
    }

    /// Read-only view of the scrollback, oldest row first.
    pub fn get_scrollback(&self) -> (r: &Vec<Vec<Cell>>)
        ensures
            r@.map_values(|row: Vec<Cell>| row@) == self@.scrollback,
    {
        &self.scrollback
    }

    /// The cursor position as (column, row); on a well-formed terminal it
    /// lies within the grid, a wrap deferred from the last column resting on
    /// that column.
    pub fn cursor_position(&self) -> (r: (usize, usize))
        ensures
            r.0 as int == self@.cursor_x,
            r.1 as int == self@.cursor_y,
            self.wf() ==> (r.0 as int) < self@.width && (r.1 as int) < self@.height,
    {
        (self.cursor_x, self.cursor_y)
    }
}

/// Relies on char::from_u32: a character exactly when the value is a Unicode
/// scalar (not a surrogate, at most 0x10FFFF), carrying that value.
#[verifier::external_body]
fn char_from_scalar(v: u32) -> (r: Option<char>)
    ensures
        r == if vstd::utf8::is_scalar(v) {
            Some(v as char)
        } else {
            None::<char>
        },
{
    char::from_u32(v)
}

/// Builds one blank row.
fn blank_row_exec(width: usize) -> (r: Vec<Cell>)
    ensures
        r@ =~= blank_row(width as int),
{
    let mut r: Vec<Cell> = Vec::new();
    let mut x: usize = 0;
    while x < width
        invariant
            x <= width,
            r@.len() == x,
            forall|i: int| 0 <= i < x ==> #[trigger] r@[i] == blank_cell(),
        decreases width - x,
    {
        r.push(Cell { ch: ' ', fg: None, bg: None, bold: false });
        x += 1;
    }
    r
}

/// Builds a blank screen of the given dimensions.
fn blank_screen_exec(width: usize, height: usize) -> (r: Vec<Vec<Cell>>)
    ensures
        r@.map_values(|row: Vec<Cell>| row@) =~= blank_screen(width as int, height as int),
{
    let mut r: Vec<Vec<Cell>> = Vec::new();
    let mut y: usize = 0;
    while y < height
        invariant
            y <= height,
            r@.len() == y,
            forall|i: int| 0 <= i < y ==> #[trigger] r@[i]@ =~= blank_row(width as int),
        decreases height - y,
    {
        r.push(blank_row_exec(width));
        y += 1;
    }
    r
}

} // verus!
