//! A plain screen: a window on the lines that is redrawn as a whole.
//!
//! A [`Screen`] takes one [`ScreenCall`] at a time. A call changes the
//! position or an option, and where something changed that shows, the window
//! is written anew. Lines are cut by bytes here: a line is shown from the
//! byte offset of the position on, as many bytes as the window is wide.

use vstd::prelude::*;
use vstd::string::*;
use crate::csi::cursor_ext::{next_line_seq, previous_line_seq, NextLine, PreviousLine};
use crate::csi::{clear_current_line, clear_line_seq, invert_seq, reset_seq, style_invert, style_reset};
use crate::pane::texts;
use crate::search::{first_occurrence, plain_all, Match, PlaneSearcher, Search};
use crate::text::{
    byte_len, char_len, push_range, push_right_aligned, right_align, decimal, str_byte_len,
    to_chars, utf8_len,
};

verus! {

/// The columns that stay free to the right of the longest line.
pub const MARGIN_RIGHT: u32 = 8;

/// The columns that a line number takes, with the space behind it.
pub const NUMBER_COLUMNS: usize = 5;

/// `v`, or the nearest number that a `u32` holds.
pub open spec fn clamp32(v: int) -> u32 {
    if v < 0 {
        0
    } else if v > u32::MAX {
        u32::MAX
    } else {
        v as u32
    }
}

/// The last sixteen bits of `n`: the number that a cursor movement by `n`
/// lines is written with.
pub open spec fn low16(n: u32) -> u16 {
    (n % 0x10000) as u16
}

/// The index of the character that starts at the byte offset `off` of `s`,
/// or the length of `s` where `off` is its byte length; `None` where no
/// character starts at `off`.
pub open spec fn boundary(s: Seq<char>, off: int) -> Option<int>
    decreases s.len(),
{
    if off == 0 {
        Some(0)
    } else if s.len() == 0 || char_len(s[0]) > off {
        None
    } else {
        match boundary(s.drop_first(), off - char_len(s[0])) {
            Some(k) => Some(k + 1),
            None => None,
        }
    }
}

/// The characters of `s` between the byte offsets `a` and `b`, or `dflt`
/// where these are not the offsets of characters of `s`, one behind the
/// other.
pub open spec fn slice_or(s: Seq<char>, a: int, b: int, dflt: Seq<char>) -> Seq<char> {
    match (boundary(s, a), boundary(s, b)) {
        (Some(i), Some(j)) => if a <= b {
            s.subrange(i, j)
        } else {
            dflt
        },
        _ => dflt,
    }
}

/// What stands for a slice that cannot be taken.
pub open spec fn hash() -> Seq<char> {
    seq!['#']
}

/// The part of `raw` between the byte offsets `range.0` and `range.1`, from
/// the byte offset `raw_i` on, with the matches `matches[i..]` in inverse
/// video. A match that starts behind the range ends the work, one that ends
/// in front of it is passed over, and any other is shown as far as it lies
/// in the range, behind the text in front of it.
pub open spec fn highlight_from(
    raw: Seq<char>,
    matches: Seq<Match>,
    range: (int, int),
    i: int,
    raw_i: int,
) -> Seq<char>
    decreases matches.len() - i,
{
    if i < 0 || i >= matches.len() {
        if raw_i < range.1 {
            slice_or(raw, raw_i, range.1, hash())
        } else {
            seq![]
        }
    } else {
        let hl = (matches[i].start as int, matches[i].end as int);
        if hl.0 > range.1 {
            slice_or(raw, raw_i, range.1, hash())
        } else if hl.1 < range.0 {
            highlight_from(raw, matches, range, i + 1, range.0)
        } else {
            let s = if hl.0 > range.0 {
                hl.0
            } else {
                range.0
            };
            let e = if hl.1 < range.1 {
                hl.1
            } else {
                range.1
            };
            let front = if raw_i < hl.0 {
                slice_or(raw, raw_i, hl.0, hash())
            } else {
                seq![]
            };
            front + invert_seq() + slice_or(raw, s, e, hash()) + reset_seq() + if e == range.1 {
                seq![]
            } else {
                highlight_from(raw, matches, range, i + 1, e)
            }
        }
    }
}

/// The part of `raw` between the byte offsets `range.0` and `range.1` with
/// the occurrences of `hlword` in inverse video.
pub open spec fn highlight(raw: Seq<char>, hlword: Seq<char>, range: (int, int)) -> Seq<char> {
    highlight_from(raw, plain_all(raw, hlword, 0), range, 0, range.0)
}

/// `n` times: the sequence that clears a line, and a line feed.
pub open spec fn swept_lines(n: nat) -> Seq<char>
    decreases n,
{
    if n == 0 {
        seq![]
    } else {
        swept_lines((n - 1) as nat) + clear_line_seq() + seq!['\n']
    }
}

/// What clears `n` rows from the row of the cursor on and brings the cursor
/// back up.
pub open spec fn sweep_window(n: u32) -> Seq<char> {
    swept_lines(n as nat) + previous_line_seq(low16(n))
}

/// The largest byte length among the lines `lines[from..to]`.
pub open spec fn max_length(lines: Seq<Seq<char>>, from: int, to: int) -> nat
    decreases to - from,
{
    if to <= from {
        0
    } else {
        let rest = max_length(lines, from, to - 1);
        let last = byte_len(lines[to - 1]);
        if last > rest {
            last
        } else {
            rest
        }
    }
}

/// What a screen is asked to do.
#[derive(Debug)]
pub enum ScreenCall<'a> {
    MoveDown(u32),
    MoveUp(u32),
    MoveLeft(u32),
    MoveRight(u32),
    MoveDownHalfPages(u32),
    MoveUpHalfPages(u32),
    MoveDownPages(u32),
    MoveUpPages(u32),
    MoveToHeadOfLine,
    MoveToEndOfLine,
    MoveToTopOfLines,
    MoveToBottomOfLines,
    MoveToLineNumber(u32),
    ShowLineNumber(bool),
    ShowNonPrinting(bool),
    HighLightWord(Option<&'a str>),
    IncrementLines(u32),
    DecrementLines(u32),
    SetNumOfLines(u32),
    Message(Option<&'a str>),
    Refresh,
    Quit,
}

/// A screen, as plain values.
pub struct ScreenView {
    /// The lines.
    pub lines: Seq<Seq<char>>,
    /// What was written for the terminal and not taken yet.
    pub out: Seq<char>,
    /// The width of the terminal, in columns.
    pub term_width: u16,
    /// The height of the terminal, in rows.
    pub term_height: u16,
    /// The number of rows that was asked for.
    pub numof_lines: u32,
    /// The number of rows that the last redraw took.
    pub flushed: u32,
    /// The byte offset from which on the lines are shown.
    pub x: u32,
    /// The index of the line at the top.
    pub y: u32,
    pub show_nonprinting: bool,
    pub show_line_number: bool,
    pub show_highlight: bool,
    /// The word that is highlighted.
    pub highlight_word: Seq<char>,
    /// Whether the window is to be written anew.
    pub dirty: bool,
    /// The message in the last row.
    pub message: Seq<char>,
}

impl ScreenView {
    /// A new screen of `nlines` rows on the lines `lines`: the rows are
    /// cleared, and the cursor stands below them.
    pub open spec fn initial(lines: Seq<Seq<char>>, term: (u16, u16), nlines: u32) -> ScreenView {
        ScreenView {
            lines,
            out: sweep_window(nlines) + next_line_seq(low16(nlines)),
            term_width: term.0,
            term_height: term.1,
            numof_lines: nlines,
            flushed: nlines,
            x: 0,
            y: 0,
            show_nonprinting: false,
            show_line_number: false,
            show_highlight: false,
            highlight_word: seq![],
            dirty: true,
            message: seq![],
        }
    }

    /// The width and the height of the window: the rows asked for, as far
    /// as the terminal has rows.
    pub open spec fn window_size(self) -> (u32, u32) {
        (
            self.term_width as u32,
            if self.numof_lines > self.term_height {
                self.term_height as u32
            } else {
                self.numof_lines
            },
        )
    }

    /// The range of the lines that a window of `wrows` rows shows: all
    /// lines where there are fewer, the last lines where the position is
    /// too far down, and else the lines from the position on.
    pub open spec fn lines_range(self, wrows: u32) -> (int, int) {
        let len = self.lines.len() as int;
        if wrows > len {
            (0, len)
        } else if self.y + wrows >= len {
            (len - wrows, len)
        } else {
            (self.y as int, self.y + wrows)
        }
    }

    /// The range of the lines that are shown.
    pub open spec fn shown(self) -> (int, int) {
        self.lines_range(self.window_size().1)
    }

    /// The largest byte length among the lines that are shown.
    pub open spec fn shown_length(self) -> u32 {
        clamp32(max_length(self.lines, self.shown().0, self.shown().1) as int)
    }

    /// The last position of the top of the window.
    pub open spec fn limit_bottom_y(self) -> u32 {
        clamp32(self.lines.len() - self.window_size().1)
    }

    /// Where the offset `offset` comes to lie in a window of `winwidth`
    /// columns, with lines of at most `lnlen` bytes: at zero where the
    /// window shows the longest line with the margin, and else not further
    /// than where the end of the line with the margin meets the right edge.
    pub open spec fn fit_offset(offset: int, lnlen: int, winwidth: int) -> u32 {
        let margined = lnlen + MARGIN_RIGHT;
        if winwidth >= margined {
            0
        } else if offset + winwidth <= margined {
            clamp32(offset)
        } else {
            clamp32(margined - winwidth)
        }
    }

    /// The columns for the text of a line: what the line number leaves of
    /// the window.
    pub open spec fn text_columns(self) -> int {
        let begin = if self.show_line_number {
            NUMBER_COLUMNS as int
        } else {
            0
        };
        if self.term_width > begin {
            self.term_width - begin
        } else {
            0
        }
    }

    /// The row for the line `raw` with the number `line_number`: the
    /// number in four columns and a space where line numbers are shown,
    /// and the bytes of the line from the offset on, as many as there are
    /// columns, with the highlighted word in inverse video where
    /// highlighting is on and the line holds the word.
    pub open spec fn decorate(self, raw: Seq<char>, line_number: int) -> Seq<char> {
        let number = if self.show_line_number {
            right_align(decimal(line_number as nat), 4) + seq![' ']
        } else {
            seq![]
        };
        let upper = if byte_len(raw) < self.x + self.text_columns() {
            byte_len(raw) as int
        } else {
            self.x + self.text_columns()
        };
        number + if self.show_highlight && first_occurrence(raw, self.highlight_word, 0) is Some {
            highlight(raw, self.highlight_word, (self.x as int, upper))
        } else {
            slice_or(raw, self.x as int, upper, seq![])
        }
    }

    /// The rows for the lines `lines[from..to]`, each followed by a line
    /// feed; `from` is the index of the first of them.
    pub open spec fn rows(self, from: int, to: int) -> Seq<char>
        decreases to - from,
    {
        if to <= from {
            seq![]
        } else {
            self.rows(from, to - 1) + self.decorate(self.lines[to - 1], to) + seq!['\n']
        }
    }

    /// The screen after a redraw: nothing happens where nothing changed.
    /// Else the cursor goes back up, the rows of the last redraw and one
    /// more are cleared, and the rows and the message are written.
    pub open spec fn refresh(self) -> ScreenView {
        if !self.dirty {
            self
        } else {
            ScreenView {
                out: self.out + previous_line_seq(low16(self.flushed)) + sweep_window(
                    clamp32(self.flushed + 1),
                ) + self.rows(self.shown().0, self.shown().1) + seq![':'] + self.message,
                dirty: false,
                flushed: (self.shown().1 - self.shown().0) as u32,
                ..self
            }
        }
    }

    /// The screen at the line `y`, marked for a redraw where that is
    /// another line.
    pub open spec fn at_y(self, y: u32) -> ScreenView {
        if y == self.y {
            self
        } else {
            ScreenView { y, dirty: true, ..self }
        }
    }

    /// The screen at the offset `x`, marked for a redraw where that is
    /// another offset.
    pub open spec fn at_x(self, x: u32) -> ScreenView {
        if x == self.x {
            self
        } else {
            ScreenView { x, dirty: true, ..self }
        }
    }

    pub open spec fn move_down(self, n: int) -> ScreenView {
        self.at_y(
            if self.y + n > self.limit_bottom_y() {
                self.limit_bottom_y()
            } else {
                (self.y + n) as u32
            },
        )
    }

    pub open spec fn move_up(self, n: int) -> ScreenView {
        self.at_y(
            if self.y <= n {
                0
            } else {
                (self.y - n) as u32
            },
        )
    }

    pub open spec fn move_left(self, n: u32) -> ScreenView {
        self.at_x(
            if self.x <= n {
                0
            } else {
                (self.x - n) as u32
            },
        )
    }

    pub open spec fn move_right(self, n: u32) -> ScreenView {
        self.at_x(
            Self::fit_offset(
                self.x + n,
                self.shown_length() as int,
                self.window_size().0 as int,
            ),
        )
    }

    pub open spec fn move_to_end_of_line(self) -> ScreenView {
        self.at_x(
            Self::fit_offset(
                self.shown_length() as int,
                self.shown_length() as int,
                self.window_size().0 as int,
            ),
        )
    }

    pub open spec fn move_to_top_of_lines(self) -> ScreenView {
        if self.y == 0 {
            self
        } else {
            ScreenView { x: 0, y: 0, dirty: true, ..self }
        }
    }

    pub open spec fn move_to_bottom_of_lines(self) -> ScreenView {
        if self.y == self.limit_bottom_y() {
            self
        } else {
            ScreenView { x: 0, y: self.limit_bottom_y(), dirty: true, ..self }
        }
    }

    /// The screen at the line `n`, or at the last line where `n` lies
    /// behind it; nothing happens where the screen stands at `n`.
    pub open spec fn move_to_line_number(self, n: u32) -> ScreenView {
        if self.y == n {
            self
        } else {
            ScreenView {
                y: if n >= self.lines.len() {
                    clamp32(self.lines.len() - 1)
                } else {
                    n
                },
                dirty: true,
                ..self
            }
        }
    }

    pub open spec fn highlight_word(self, hlword: Option<Seq<char>>) -> ScreenView {
        match hlword {
            Some(w) => if w.len() == 0 {
                if !self.show_highlight {
                    self
                } else {
                    ScreenView { show_highlight: false, dirty: true, ..self }
                }
            } else if self.show_highlight && w == self.highlight_word {
                self
            } else {
                ScreenView { show_highlight: true, highlight_word: w, dirty: true, ..self }
            },
            None => if self.show_highlight {
                ScreenView { show_highlight: false, dirty: true, ..self }
            } else {
                self
            },
        }
    }

    pub open spec fn set_numof_lines(self, n: u32) -> ScreenView {
        if n == 0 || n == self.numof_lines {
            self
        } else {
            ScreenView { numof_lines: n, dirty: true, ..self }
        }
    }

    pub open spec fn decrement_lines(self, n: u32) -> ScreenView {
        if n >= self.numof_lines {
            self
        } else {
            self.set_numof_lines((self.numof_lines - n) as u32)
        }
    }

    pub open spec fn set_message(self, msg: Option<Seq<char>>) -> ScreenView {
        ScreenView {
            message: match msg {
                Some(m) => m,
                None => seq![],
            },
            dirty: true,
            ..self
        }
    }

    /// What `Quit` writes: the line of the cursor is cleared, and the
    /// cursor goes to the next line.
    pub open spec fn quit(self) -> ScreenView {
        ScreenView { out: self.out + clear_line_seq() + seq!['\n'], ..self }
    }

    /// The screen after the call `scrcall`, before it is drawn.
    pub open spec fn changed(self, scrcall: ScreenCall) -> ScreenView {
        let wh = self.window_size().1;
        match scrcall {
            ScreenCall::MoveDown(n) => self.move_down(n as int),
            ScreenCall::MoveUp(n) => self.move_up(n as int),
            ScreenCall::MoveLeft(n) => self.move_left(n),
            ScreenCall::MoveRight(n) => self.move_right(n),
            ScreenCall::MoveDownHalfPages(n) => self.move_down((wh * n) / 2),
            ScreenCall::MoveUpHalfPages(n) => self.move_up((wh * n) / 2),
            ScreenCall::MoveDownPages(n) => self.move_down(wh * n),
            ScreenCall::MoveUpPages(n) => self.move_up(wh * n),
            ScreenCall::MoveToHeadOfLine => self.at_x(0),
            ScreenCall::MoveToEndOfLine => self.move_to_end_of_line(),
            ScreenCall::MoveToTopOfLines => self.move_to_top_of_lines(),
            ScreenCall::MoveToBottomOfLines => self.move_to_bottom_of_lines(),
            ScreenCall::MoveToLineNumber(n) => self.move_to_line_number(n),
            ScreenCall::ShowLineNumber(b) => ScreenView { show_line_number: b, ..self },
            ScreenCall::ShowNonPrinting(b) => ScreenView { show_nonprinting: b, ..self },
            ScreenCall::HighLightWord(hlword) => self.highlight_word(
                match hlword {
                    Some(w) => Some(w@),
                    None => None,
                },
            ),
            ScreenCall::IncrementLines(n) => self.set_numof_lines(clamp32(self.numof_lines + n)),
            ScreenCall::DecrementLines(n) => self.decrement_lines(n),
            ScreenCall::SetNumOfLines(n) => self.set_numof_lines(n),
            ScreenCall::Message(msg) => self.set_message(
                match msg {
                    Some(m) => Some(m@),
                    None => None,
                },
            ),
            ScreenCall::Refresh => ScreenView { dirty: true, ..self },
            ScreenCall::Quit => self.quit(),
        }
    }

    /// The screen after the call `scrcall`: changed, and drawn where the
    /// change shows.
    pub open spec fn call(self, scrcall: ScreenCall) -> ScreenView {
        self.changed(scrcall).refresh()
    }
}

/// The index of the character that starts at the byte offset `off`.
fn boundary_index(v: &Vec<char>, off: usize) -> (r: Option<usize>)
    ensures
        match r {
            Some(k) => boundary(v@, off as int) == Some(k as int) && k <= v.len(),
            None => boundary(v@, off as int) is None,
        },
{
    let mut k: usize = 0;
    let mut pos: usize = 0;
    proof {
        assert(v@.skip(0) =~= v@);
        if boundary(v@, off as int) is Some {
            lemma_boundary_bound(v@, off as int);
        }
    }
    while pos < off
        invariant
            k <= v.len(),
            pos <= off,
            match boundary(v@.skip(k as int), off - pos) {
                Some(j) => boundary(v@, off as int) == Some(k + j) && k + j <= v.len(),
                None => boundary(v@, off as int) is None,
            },
        decreases off - pos,
    {
        if k >= v.len() {
            assert(v@.skip(k as int).len() == 0);
            return None;
        }
        let n = utf8_len(v[k]);
        proof {
            let s = v@.skip(k as int);
            assert(s[0] == v@[k as int]);
            assert(s.drop_first() =~= v@.skip(k + 1));
        }
        if n > off - pos {
            return None;
        }
        pos = pos + n;
        k = k + 1;
    }
    Some(k)
}

/// Appends the characters of `v` between the byte offsets `a` and `b`, or
/// `dflt` where they cannot be taken.
fn push_slice_or(out: &mut String, v: &Vec<char>, a: usize, b: usize, dflt: &str)
    ensures
        final(out)@ == old(out)@ + slice_or(v@, a as int, b as int, dflt@),
{
    let from = boundary_index(v, a);
    let to = boundary_index(v, b);
    match (from, to) {
        (Some(i), Some(j)) => {
            if a <= b {
                proof {
                    lemma_boundary_monotonic(v@, a as int, b as int);
                }
                push_range(out, v, i, j);
            } else {
                out.append(dflt);
            }
        },
        _ => {
            out.append(dflt);
        },
    }
}

/// Of two offsets of characters, the one further on belongs to the
/// character further on.
pub proof fn lemma_boundary_monotonic(s: Seq<char>, a: int, b: int)
    requires
        0 <= a <= b,
        boundary(s, a) is Some,
        boundary(s, b) is Some,
    ensures
        0 <= boundary(s, a)->0 <= boundary(s, b)->0 <= s.len(),
    decreases s.len(),
{
    if a == 0 {
        lemma_boundary_bound(s, b);
    } else {
        lemma_boundary_monotonic(s.drop_first(), a - char_len(s[0]), b - char_len(s[0]));
    }
}

/// The offset of a character lies at a character of the text, or at its
/// end.
pub proof fn lemma_boundary_bound(s: Seq<char>, b: int)
    requires
        boundary(s, b) is Some,
    ensures
        0 <= boundary(s, b)->0 <= s.len(),
    decreases s.len(),
{
    if b != 0 {
        lemma_boundary_bound(s.drop_first(), b - char_len(s[0]));
    }
}

/// Appends `n` times the sequence that clears a line, and a line feed.
fn push_swept_lines(out: &mut String, n: u32)
    ensures
        final(out)@ == old(out)@ + swept_lines(n as nat),
{
    let clear = clear_current_line();
    let mut i: u32 = 0;
    assert(out@ + swept_lines(0) =~= out@);
    while i < n
        invariant
            i <= n,
            clear@ == clear_line_seq(),
            out@ == old(out)@ + swept_lines(i as nat),
        decreases n - i,
    {
        out.append(clear.as_str());
        out.push('\n');
        i = i + 1;
        assert(out@ =~= old(out)@ + swept_lines(i as nat));
    }
}

/// The last sixteen bits of `n`.
fn low16_of(n: u32) -> (r: u16)
    ensures
        r == low16(n),
{
    (n % 0x10000) as u16
}

/// `v`, or the largest `u32` where `v` is larger.
fn to_u32(v: usize) -> (r: u32)
    ensures
        r == clamp32(v as int),
{
    if v > 0xffff_ffff {
        0xffff_ffff
    } else {
        v as u32
    }
}

/// `v`, or the largest `u32` where `v` is larger.
fn to_u32_from(v: u64) -> (r: u32)
    ensures
        r == clamp32(v as int),
{
    if v > 0xffff_ffff {
        0xffff_ffff
    } else {
        v as u32
    }
}

/// The screen.
pub struct Screen {
    linebuf: Vec<String>,
    ostream: String,
    termsize: (u16, u16),
    specified_numof_lines: u32,
    flushed_numof_lines: u32,
    specified_pt: (u32, u32),
    show_nonprinting: bool,
    show_line_number: bool,
    show_highlight: bool,
    highlight_word: String,
    dirty: bool,
    message: String,
}

impl View for Screen {
    type V = ScreenView;

    closed spec fn view(&self) -> ScreenView {
        ScreenView {
            lines: texts(self.linebuf@),
            out: self.ostream@,
            term_width: self.termsize.0,
            term_height: self.termsize.1,
            numof_lines: self.specified_numof_lines,
            flushed: self.flushed_numof_lines,
            x: self.specified_pt.0,
            y: self.specified_pt.1,
            show_nonprinting: self.show_nonprinting,
            show_line_number: self.show_line_number,
            show_highlight: self.show_highlight,
            highlight_word: self.highlight_word@,
            dirty: self.dirty,
            message: self.message@,
        }
    }
}

impl Screen {
    /// A new screen of `nlines` rows on the lines `buf`, in a terminal of
    /// the size `termsize`: its width and its height.
    pub fn new(buf: Vec<String>, termsize: (u16, u16), nlines: u32) -> (scr: Self)
        ensures
            scr@ == ScreenView::initial(texts(buf@), termsize, nlines),
    {
        let mut scr = Screen {
            linebuf: buf,
            ostream: String::new(),
            termsize,
            specified_numof_lines: nlines,
            flushed_numof_lines: nlines,
            specified_pt: (0, 0),
            show_nonprinting: false,
            show_line_number: false,
            show_highlight: false,
            highlight_word: String::new(),
            dirty: true,
            message: String::new(),
        };
        scr.sweep_window(nlines);
        NextLine(low16_of(nlines)).write_to(&mut scr.ostream);
        assert(scr.ostream@ =~= sweep_window(nlines) + next_line_seq(low16(nlines)));
        scr
    }

    /// Tells the screen the size of the terminal.
    pub fn set_terminal_size(&mut self, term_width: u16, term_height: u16)
        ensures
            final(self)@ == (ScreenView { term_width, term_height, ..old(self)@ }),
    {
        self.termsize = (term_width, term_height);
    }

    /// Takes what was written for the terminal.
    pub fn take_output(&mut self) -> (s: String)
        ensures
            s@ == old(self)@.out,
            final(self)@ == (ScreenView { out: seq![], ..old(self)@ }),
    {
        let mut s = String::new();
        std::mem::swap(&mut self.ostream, &mut s);
        s
    }

    fn sweep_window(&mut self, nlines: u32)
        ensures
            final(self)@ == (ScreenView {
                out: old(self)@.out + sweep_window(nlines),
                ..old(self)@
            }),
    {
        push_swept_lines(&mut self.ostream, nlines);
        PreviousLine(low16_of(nlines)).write_to(&mut self.ostream);
        assert(self.ostream@ =~= old(self)@.out + sweep_window(nlines));
    }

    fn move_to_home_position(&mut self)
        ensures
            final(self)@ == (ScreenView {
                out: old(self)@.out + previous_line_seq(low16(old(self)@.flushed)),
                ..old(self)@
            }),
    {
        PreviousLine(low16_of(self.flushed_numof_lines)).write_to(&mut self.ostream);
    }

    /// return (width, height)
    pub fn window_size(&self) -> (r: (u32, u32))
        ensures
            r == self@.window_size(),
    {
        let (w, h) = self.termsize;
        (
            w as u32,
            if self.specified_numof_lines > h as u32 {
                h as u32
            } else {
                self.specified_numof_lines
            },
        )
    }

    /// return range of visible lines
    pub fn lines_range(&self, wrows: u32) -> (r: (usize, usize))
        ensures
            r.0 == self@.lines_range(wrows).0,
            r.1 == self@.lines_range(wrows).1,
            r.0 <= r.1 <= self@.lines.len(),
            r.1 - r.0 <= wrows,
    {
        let wr = wrows as usize;
        let lbrows = self.linebuf.len();
        let y = self.specified_pt.1 as usize;
        if wr > lbrows {
            // buflines length is less than win-rows.
            (0, lbrows)
        } else if y >= lbrows - wr {
            // buflines length is not enough at current pos.row. scroll down to fit.
            (lbrows - wr, lbrows)
        } else {
            (y, y + wr)
        }
    }

    /// return max line length of specified lines
    fn max_line_length(&self, range: (usize, usize)) -> (r: u32)
        requires
            range.0 <= range.1 <= self@.lines.len(),
        ensures
            r == clamp32(max_length(self@.lines, range.0 as int, range.1 as int) as int),
    {
        let mut max: usize = 0;
        let mut i: usize = range.0;
        while i < range.1
            invariant
                range.0 <= i <= range.1 <= self.linebuf.len(),
                max == max_length(self@.lines, range.0 as int, i as int),
            decreases range.1 - i,
        {
            let n = str_byte_len(self.linebuf[i].as_str());
            assert(self@.lines[i as int] == self.linebuf@[i as int]@);
            if n > max {
                max = n;
            }
            i = i + 1;
        }
        to_u32(max)
    }

    /// return the end of y that is considered window size.
    pub fn limit_bottom_y(&self) -> (r: u32)
        ensures
            r == self@.limit_bottom_y(),
    {
        let (_, wh) = self.window_size();
        let len = self.linebuf.len();
        if len > wh as usize {
            to_u32(len - wh as usize)
        } else {
            0
        }
    }

    /// return the cursor offset that is considered window size and string length.
    pub fn fit_offset(offset: u64, lnlen: u32, winwidth: u32) -> (r: u32)
        ensures
            r == ScreenView::fit_offset(offset as int, lnlen as int, winwidth as int),
    {
        let margin_right = MARGIN_RIGHT as u64;
        let mrgined_lnlen = lnlen as u64 + margin_right;

        if winwidth as u64 >= mrgined_lnlen {
            0
        } else if offset <= mrgined_lnlen - winwidth as u64 {
            to_u32_from(offset)
        } else {
            // offset + winwidth > lnlen
            to_u32_from(mrgined_lnlen - winwidth as u64)
        }
    }

    /// The part of `raw` between the byte offsets `range.0` and `range.1`
    /// with the occurrences of `hlword` in inverse video.
    pub fn highlight(raw: &str, hlword: &str, range: (usize, usize)) -> (line: String)
        ensures
            line@ == highlight(raw@, hlword@, (range.0 as int, range.1 as int)),
    {
        let chars = to_chars(raw);
        let mut searcher = PlaneSearcher::new();
        let _ = searcher.set_pattern(hlword);
        let mut it = searcher.find_iter(raw);
        let ghost all = plain_all(raw@, hlword@, 0);
        let ghost rg = (range.0 as int, range.1 as int);
        let ghost whole = highlight(raw@, hlword@, rg);
        let mut line = String::new();
        let mut raw_i = range.0;
        let ghost mut i: int = 0;
        assert(all.skip(0) =~= all);
        assert(line@ + whole =~= whole);
        loop
            invariant
                chars@ == raw@,
                rg == (range.0 as int, range.1 as int),
                all == plain_all(raw@, hlword@, 0),
                whole == highlight(raw@, hlword@, rg),
                0 <= i <= all.len(),
                it.remaining() == all.skip(i),
                line@ + highlight_from(raw@, all, rg, i, raw_i as int) == whole,
            decreases all.len() - i,
        {
            let ghost before = line@;
            let ghost rest = highlight_from(raw@, all, rg, i, raw_i as int);
            match it.next() {
                None => {
                    if raw_i < range.1 {
                        push_slice_or(&mut line, &chars, raw_i, range.1, "#");
                    } else {
                        assert(line@ + Seq::<char>::empty() =~= line@);
                    }
                    proof {
                        reveal_strlit("#");
                        assert("#"@ =~= hash());
                    }
                    return line;
                },
                Some(m) => {
                    proof {
                        reveal_strlit("#");
                        assert("#"@ =~= hash());
                        assert(all.skip(i)[0] == all[i]);
                        assert(all.skip(i).drop_first() =~= all.skip(i + 1));
                    }
                    let hl = (m.start(), m.end());
                    if hl.0 > range.1 {
                        push_slice_or(&mut line, &chars, raw_i, range.1, "#");
                        return line;
                    } else if hl.1 < range.0 {
                        raw_i = range.0;
                        proof {
                            i = i + 1;
                        }
                    } else {
                        if raw_i < hl.0 {
                            push_slice_or(&mut line, &chars, raw_i, hl.0, "#");
                        } else {
                            assert(line@ + Seq::<char>::empty() =~= line@);
                        }
                        let on = style_invert();
                        line.append(on.as_str());
                        let s = if hl.0 > range.0 {
                            hl.0
                        } else {
                            range.0
                        };
                        let e = if hl.1 < range.1 {
                            hl.1
                        } else {
                            range.1
                        };
                        push_slice_or(&mut line, &chars, s, e, "#");
                        let off = style_reset();
                        line.append(off.as_str());
                        raw_i = e;
                        if raw_i == range.1 {
                            assert(line@ =~= before + rest);
                            return line;
                        }
                        proof {
                            i = i + 1;
                            assert(before + rest =~= line@ + highlight_from(
                                raw@,
                                all,
                                rg,
                                i,
                                raw_i as int,
                            ));
                        }
                    }
                },
            }
        }
    }

    fn decorate(&self, raw: &str, line_number: usize) -> (line: String)
        ensures
            line@ == self@.decorate(raw@, line_number as int),
    {
        let (ww, _) = self.window_size();
        let x = self.specified_pt.0 as usize;
        let width: usize = if self.show_line_number {
            if ww as usize > NUMBER_COLUMNS {
                ww as usize - NUMBER_COLUMNS
            } else {
                0
            }
        } else {
            ww as usize
        };
        let mut line = String::new();

        if self.show_line_number {
            push_right_aligned(&mut line, line_number as u64, 4);
            line.push(' ');
        }
        let ghost number = line@;
        let len = str_byte_len(raw);
        let upper: usize = if len - 0 < x || len - x < width {
            len
        } else {
            x + width
        };
        assert(upper as int == if byte_len(raw@) < self@.x + self@.text_columns() {
            byte_len(raw@) as int
        } else {
            self@.x + self@.text_columns()
        });

        let mut plain = PlaneSearcher::new();
        let _ = plain.set_pattern(self.highlight_word.as_str());
        if self.show_highlight && plain.find(raw).is_some() {
            let hl = Screen::highlight(raw, self.highlight_word.as_str(), (x, upper));
            line.append(hl.as_str());
        } else {
            let chars = to_chars(raw);
            push_slice_or(&mut line, &chars, x, upper, "");
            proof {
                reveal_strlit("");
                assert(""@ =~= Seq::<char>::empty());
            }
        }
        line
    }

    /// The rows for the lines with the indices `from` to `to`.
    fn draw_rows(&self, from: usize, to: usize) -> (block: String)
        requires
            from <= to <= self@.lines.len(),
        ensures
            block@ == self@.rows(from as int, to as int),
    {
        let mut block = String::new();
        let mut i: usize = from;
        while i < to
            invariant
                from <= i <= to <= self.linebuf.len(),
                block@ == self@.rows(from as int, i as int),
            decreases to - i,
        {
            let dl = self.decorate(self.linebuf[i].as_str(), i + 1);
            assert(self@.lines[i as int] == self.linebuf@[i as int]@);
            block.append(dl.as_str());
            block.push('\n');
            i = i + 1;
        }
        block
    }

    fn refresh(&mut self)
        ensures
            final(self)@ == old(self)@.refresh(),
    {
        if !self.dirty {
            return ;
        }
        let (_, wh) = self.window_size();
        let (begin, end) = self.lines_range(wh);
        let block = self.draw_rows(begin, end);

        self.move_to_home_position();
        let nlines = self.flushed_numof_lines;
        self.sweep_window(
            if nlines == 0xffff_ffff {
                nlines
            } else {
                nlines + 1
            },
        );
        self.ostream.append(block.as_str());
        self.ostream.push(':');
        self.ostream.append(self.message.as_str());
        assert(self.ostream@ =~= old(self)@.out + previous_line_seq(low16(old(self)@.flushed))
            + sweep_window(clamp32(old(self)@.flushed + 1)) + old(self)@.rows(
            begin as int,
            end as int,
        ) + seq![':'] + old(self)@.message);
        self.dirty = false;

        self.flushed_numof_lines = (end - begin) as u32;
    }

    /// Goes to the line `y`.
    fn set_y(&mut self, y: u32)
        ensures
            final(self)@ == old(self)@.at_y(y),
    {
        if y == self.specified_pt.1 {
            return ;
        }
        self.specified_pt.1 = y;
        self.dirty = true;
    }

    /// Goes to the offset `x`.
    fn set_x(&mut self, x: u32)
        ensures
            final(self)@ == old(self)@.at_x(x),
    {
        if x == self.specified_pt.0 {
            return ;
        }
        self.specified_pt.0 = x;
        self.dirty = true;
    }

    fn scrcall_move_down(&mut self, n: u64)
        ensures
            final(self)@ == old(self)@.move_down(n as int),
    {
        let end_y = self.limit_bottom_y();
        let y = if n > end_y as u64 || self.specified_pt.1 as u64 + n > end_y as u64 {
            end_y
        } else {
            (self.specified_pt.1 as u64 + n) as u32
        };
        self.set_y(y);
    }

    fn scrcall_move_up(&mut self, n: u64)
        ensures
            final(self)@ == old(self)@.move_up(n as int),
    {
        let y = if self.specified_pt.1 as u64 <= n {
            0
        } else {
            (self.specified_pt.1 as u64 - n) as u32
        };
        self.set_y(y);
    }

    fn scrcall_move_left(&mut self, n: u32)
        ensures
            final(self)@ == old(self)@.move_left(n),
    {
        let x = if self.specified_pt.0 <= n {
            0
        } else {
            self.specified_pt.0 - n
        };
        self.set_x(x);
    }

    fn scrcall_move_right(&mut self, n: u32)
        ensures
            final(self)@ == old(self)@.move_right(n),
    {
        let (ww, wh) = self.window_size();
        let max_lnlen = self.max_line_length(self.lines_range(wh));
        let x = Screen::fit_offset(self.specified_pt.0 as u64 + n as u64, max_lnlen, ww);
        self.set_x(x);
    }

    /// The number of lines in `n` pages of the window, or in `n` half
    /// pages.
    fn pages(&self, n: u32, half: bool) -> (r: u64)
        ensures
            r == if half {
                (self@.window_size().1 * n) / 2
            } else {
                self@.window_size().1 * n
            },
    {
        let (_, wh) = self.window_size();
        assert(wh * n <= 0xffff_ffff * 0xffff_ffff) by (nonlinear_arith)
            requires
                wh <= 0xffff_ffff,
                n <= 0xffff_ffff,
        ;
        if half {
            (wh as u64 * n as u64) / 2
        } else {
            wh as u64 * n as u64
        }
    }

    fn scrcall_move_down_halfpages(&mut self, n: u32)
        ensures
            final(self)@ == old(self)@.move_down((old(self)@.window_size().1 * n) / 2),
    {
        let hpages = self.pages(n, true);
        self.scrcall_move_down(hpages);
    }

    fn scrcall_move_up_halfpages(&mut self, n: u32)
        ensures
            final(self)@ == old(self)@.move_up((old(self)@.window_size().1 * n) / 2),
    {
        let hpages = self.pages(n, true);
        self.scrcall_move_up(hpages);
    }

    fn scrcall_move_down_pages(&mut self, n: u32)
        ensures
            final(self)@ == old(self)@.move_down(old(self)@.window_size().1 * n),
    {
        let pages = self.pages(n, false);
        self.scrcall_move_down(pages);
    }

    fn scrcall_move_up_pages(&mut self, n: u32)
        ensures
            final(self)@ == old(self)@.move_up(old(self)@.window_size().1 * n),
    {
        let pages = self.pages(n, false);
        self.scrcall_move_up(pages);
    }

    fn scrcall_move_to_head_of_line(&mut self)
        ensures
            final(self)@ == old(self)@.at_x(0),
    {
        self.set_x(0);
    }

    fn scrcall_move_to_end_of_line(&mut self)
        ensures
            final(self)@ == old(self)@.move_to_end_of_line(),
    {
        let (ww, wh) = self.window_size();
        let max_lnlen = self.max_line_length(self.lines_range(wh));
        let x = Screen::fit_offset(max_lnlen as u64, max_lnlen, ww);
        self.set_x(x);
    }

    fn scrcall_move_to_top_of_lines(&mut self)
        ensures
            final(self)@ == old(self)@.move_to_top_of_lines(),
    {
        if self.specified_pt.1 == 0 {
            return ;
        }
        self.specified_pt = (0, 0);
        self.dirty = true;
    }

    fn scrcall_move_to_bottom_of_lines(&mut self)
        ensures
            final(self)@ == old(self)@.move_to_bottom_of_lines(),
    {
        let y = self.limit_bottom_y();
        if self.specified_pt.1 == y {
            return ;
        }
        self.specified_pt = (0, y);
        self.dirty = true;
    }

    fn scrcall_move_to_line_number(&mut self, n: u32)
        ensures
            final(self)@ == old(self)@.move_to_line_number(n),
    {
        let len = self.linebuf.len();
        let y = if n as usize >= len {
            if len == 0 {
                0
            } else {
                to_u32(len - 1)
            }
        } else {
            n
        };
        if self.specified_pt.1 == n {
            return ;
        }
        self.specified_pt.1 = y;
        self.dirty = true;
    }

    fn scrcall_show_line_number(&mut self, b: bool)
        ensures
            final(self)@ == (ScreenView { show_line_number: b, ..old(self)@ }),
    {
        if b == self.show_line_number {
            return ;
        }
        self.show_line_number = b;
    }

    fn scrcall_show_nonprinting(&mut self, b: bool)
        ensures
            final(self)@ == (ScreenView { show_nonprinting: b, ..old(self)@ }),
    {
        if b == self.show_nonprinting {
            return ;
        }
        self.show_nonprinting = b;
    }

    fn scrcall_highlight_word(&mut self, hlword: Option<&str>)
        ensures
            final(self)@ == old(self)@.highlight_word(
                match hlword {
                    Some(w) => Some(w@),
                    None => None,
                },
            ),
    {
        match hlword {
            Some(w) => {
                if w.is_empty() {
                    if !self.show_highlight {
                        return ;
                    }
                    self.show_highlight = false;
                    self.dirty = true;
                } else {
                    if self.show_highlight && same_text(w, self.highlight_word.as_str()) {
                        return ;
                    }
                    self.show_highlight = true;
                    self.highlight_word = w.to_owned();
                    self.dirty = true;
                }
            },
            None => {
                if self.show_highlight {
                    self.show_highlight = false;
                    self.dirty = true;
                }
            },
        }
    }

    fn scrcall_increment_lines(&mut self, n: u32)
        ensures
            final(self)@ == old(self)@.set_numof_lines(clamp32(old(self)@.numof_lines + n)),
    {
        let nl = to_u32_from(self.specified_numof_lines as u64 + n as u64);
        self.scrcall_set_numof_lines(nl);
    }

    fn scrcall_decrement_lines(&mut self, n: u32)
        ensures
            final(self)@ == old(self)@.decrement_lines(n),
    {
        if n >= self.specified_numof_lines {
            return ;
        }
        let nl = self.specified_numof_lines - n;
        self.scrcall_set_numof_lines(nl);
    }

    fn scrcall_set_numof_lines(&mut self, n: u32)
        ensures
            final(self)@ == old(self)@.set_numof_lines(n),
    {
        if n == 0 || n == self.specified_numof_lines {
            return ;
        }
        self.specified_numof_lines = n;
        self.dirty = true;
    }

    fn scrcall_message(&mut self, msg: Option<&str>)
        ensures
            final(self)@ == old(self)@.set_message(
                match msg {
                    Some(m) => Some(m@),
                    None => None,
                },
            ),
    {
        match msg {
            Some(m) => {
                self.message = m.to_owned();
            },
            None => {
                self.message = String::new();
            },
        }
        self.dirty = true;
    }

    fn scrcall_refresh(&mut self)
        ensures
            final(self)@ == (ScreenView { dirty: true, ..old(self)@ }),
    {
        self.dirty = true;
    }

    fn scrcall_quit(&mut self)
        ensures
            final(self)@ == old(self)@.quit(),
    {
        let clear = clear_current_line();
        self.ostream.append(clear.as_str());
        self.ostream.push('\n');
        assert(self.ostream@ =~= old(self)@.out + clear_line_seq() + seq!['\n']);
    }

    /// Takes the call `scrcall`, and draws the window where something
    /// changed that shows.
    pub fn call(&mut self, scrcall: ScreenCall)
        ensures
            final(self)@ == old(self)@.call(scrcall),
    {
        match scrcall {
            ScreenCall::MoveDown(n) => self.scrcall_move_down(n as u64),
            ScreenCall::MoveUp(n) => self.scrcall_move_up(n as u64),
            ScreenCall::MoveLeft(n) => self.scrcall_move_left(n),
            ScreenCall::MoveRight(n) => self.scrcall_move_right(n),
            ScreenCall::MoveDownHalfPages(n) => self.scrcall_move_down_halfpages(n),
            ScreenCall::MoveUpHalfPages(n) => self.scrcall_move_up_halfpages(n),
            ScreenCall::MoveDownPages(n) => self.scrcall_move_down_pages(n),
            ScreenCall::MoveUpPages(n) => self.scrcall_move_up_pages(n),
            ScreenCall::MoveToHeadOfLine => self.scrcall_move_to_head_of_line(),
            ScreenCall::MoveToEndOfLine => self.scrcall_move_to_end_of_line(),
            ScreenCall::MoveToTopOfLines => self.scrcall_move_to_top_of_lines(),
            ScreenCall::MoveToBottomOfLines => self.scrcall_move_to_bottom_of_lines(),
            ScreenCall::MoveToLineNumber(n) => self.scrcall_move_to_line_number(n),
            ScreenCall::ShowLineNumber(b) => self.scrcall_show_line_number(b),
            ScreenCall::ShowNonPrinting(b) => self.scrcall_show_nonprinting(b),
            ScreenCall::HighLightWord(hlword) => self.scrcall_highlight_word(hlword),
            ScreenCall::IncrementLines(n) => self.scrcall_increment_lines(n),
            ScreenCall::DecrementLines(n) => self.scrcall_decrement_lines(n),
            ScreenCall::SetNumOfLines(n) => self.scrcall_set_numof_lines(n),
            ScreenCall::Message(msg) => self.scrcall_message(msg),
            ScreenCall::Refresh => self.scrcall_refresh(),
            ScreenCall::Quit => self.scrcall_quit(),
        }
        self.refresh();
    }

    // return (x, y)
    pub fn position(&self) -> (r: (u32, u32))
        ensures
            r == (self@.x, self@.y),
    {
        (self.specified_pt.0, self.specified_pt.1)
    }

    pub fn hlword(&self) -> (r: &str)
        ensures
            r@ == self@.highlight_word,
    {
        self.highlight_word.as_str()
    }
}

/// Whether two texts are the same.
fn same_text(a: &str, b: &str) -> (r: bool)
    ensures
        r == (a@ == b@),
{
    let x = to_chars(a);
    let y = to_chars(b);
    if x.len() != y.len() {
        return false;
    }
    let mut i: usize = 0;
    while i < x.len()
        invariant
            i <= x.len(),
            x.len() == y.len(),
            x@ == a@,
            y@ == b@,
            x@.take(i as int) == y@.take(i as int),
        decreases x.len() - i,
    {
        if x[i] != y[i] {
            assert(a@[i as int] != b@[i as int]);
            return false;
        }
        assert(x@.take(i + 1) =~= x@.take(i as int).push(x@[i as int]));
        assert(y@.take(i + 1) =~= y@.take(i as int).push(y@[i as int]));
        i = i + 1;
    }
    assert(x@.take(x.len() as int) =~= x@);
    assert(y@.take(y.len() as int) =~= y@);
    true
}

} // verus!
