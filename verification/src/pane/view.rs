//! What a pane is and what it shows.
//!
//! [`PaneView`] holds a pane as plain values. Its functions say where the
//! pane may scroll to, what each command makes of it, and what a redraw
//! writes to the terminal.

use vstd::prelude::*;
use crate::csi::cursor_ext::{horizontal_absolute_seq, next_line_seq, previous_line_seq};
use crate::csi::{clear_line_seq, fg_light_black_seq, invert_seq, reset_seq};
use crate::pane::highlight::highlighted;
use crate::pane::ScrollStep;
use crate::search::{Engine, Match};
use crate::tab::expanded;
use crate::text::{byte_len, decimal, right_align, spaces};
use crate::unicode_divide::{Division, SeekFrom};
use crate::width::str_width;

verus! {

/// The columns that stay free to the right of the longest line when the
/// pane is scrolled to the end of the lines.
pub const MARGIN_RIGHT_WIDTH: u16 = 4;

/// The rows that the status line takes below the pane.
pub const MESSAGE_BAR_HEIGHT: u16 = 1;

/// `v`, or the nearest number that a `u16` holds.
pub open spec fn clamp16(v: int) -> u16 {
    if v < 0 {
        0
    } else if v > u16::MAX {
        u16::MAX
    } else {
        v as u16
    }
}

/// The largest display width among the lines `lines[from..to]`.
pub open spec fn max_width(lines: Seq<Seq<char>>, from: int, to: int) -> nat
    decreases to - from,
{
    if to <= from {
        0
    } else {
        let rest = max_width(lines, from, to - 1);
        let last = str_width(lines[to - 1]) as nat;
        if last > rest {
            last
        } else {
            rest
        }
    }
}

/// The two ends of each match.
pub open spec fn ends_of(matches: Seq<Match>) -> Seq<(usize, usize)> {
    matches.map_values(|m: Match| (m.start, m.end))
}

/// The mark that says that a line goes on beyond the edge of the pane: the
/// character `c` in light black.
pub open spec fn extend_mark(c: char) -> Seq<char> {
    fg_light_black_seq() + seq![c] + reset_seq()
}

/// The number of the line with the index `n`, right-aligned in a field of
/// `width` columns, and of two at least.
pub open spec fn numbered(width: nat, n: int) -> Seq<char> {
    right_align(
        decimal((n + 1) as nat),
        if width < 2 {
            2
        } else {
            width
        },
    )
}

/// The field of a line number without a number: `width` spaces, and two at
/// least.
pub open spec fn unnumbered(width: nat) -> Seq<char> {
    spaces(
        if width < 2 {
            2
        } else {
            width
        },
    )
}

/// The rows, each followed by a line feed.
pub open spec fn joined(rows: Seq<Seq<char>>) -> Seq<char>
    decreases rows.len(),
{
    if rows.len() == 0 {
        seq![]
    } else {
        joined(rows.drop_last()) + rows.last() + seq!['\n']
    }
}

/// `n` times: the sequence that clears a line, and a line feed.
pub open spec fn cleared_lines(n: nat) -> Seq<char>
    decreases n,
{
    if n == 0 {
        seq![]
    } else {
        cleared_lines((n - 1) as nat) + clear_line_seq() + seq!['\n']
    }
}

/// What clears `n` rows and the row below them, from the row of the cursor
/// on, and brings the cursor back to the first of them.
pub open spec fn sweep_seq(n: u16) -> Seq<char> {
    horizontal_absolute_seq(1) + cleared_lines(n as nat) + clear_line_seq() + if n > 0 {
        previous_line_seq(n)
    } else {
        seq![]
    }
}

/// The marker of the end of the lines, in inverse video.
pub open spec fn end_marker() -> Seq<char> {
    invert_seq() + seq!['(', 'E', 'N', 'D', ')'] + reset_seq()
}

/// What `quit` writes: the cursor goes to the first column, and its line is
/// cleared.
pub open spec fn quit_seq() -> Seq<char> {
    horizontal_absolute_seq(1) + clear_line_seq()
}

/// A pane, as plain values.
pub struct PaneView {
    /// The lines of the buffer.
    pub lines: Seq<Seq<char>>,
    /// What was written for the terminal and not taken yet.
    pub out: Seq<char>,
    /// The height that was asked for, in rows.
    pub height: u16,
    /// The number of rows that the last redraw took.
    pub flushed: u16,
    /// The horizontal offset, in columns.
    pub x: u16,
    /// The index of the line at the top of the pane.
    pub y: u16,
    /// Whether line numbers are shown.
    pub show_linenumber: bool,
    /// Whether the matches of the search are highlighted.
    pub show_highlight: bool,
    /// The searcher whose matches are highlighted.
    pub engine: Engine,
    /// The message in the status line; none where it is empty.
    pub message: Seq<char>,
    /// The width of the terminal, in columns.
    pub term_width: u16,
    /// The height of the terminal, in rows.
    pub term_height: u16,
    /// The distance between two tab stops.
    pub tab_width: usize,
    /// Whether long lines are wrapped.
    pub wraps_line: bool,
}

/// The height of a new pane, in rows.
pub const DEFAULT_PANE_HEIGHT: u16 = 1;

/// The tab width of a new pane.
pub const DEFAULT_TAB_WIDTH: usize = 4;

impl PaneView {
    /// A new pane in a terminal of the given size: without lines, one row
    /// high where the terminal has room for it, with its rows cleared and
    /// the cursor in the status line.
    pub open spec fn initial(term_width: u16, term_height: u16) -> PaneView {
        let base = PaneView {
            lines: seq![],
            out: seq![],
            height: DEFAULT_PANE_HEIGHT,
            flushed: DEFAULT_PANE_HEIGHT,
            x: 0,
            y: 0,
            show_linenumber: false,
            show_highlight: false,
            engine: Engine::Null,
            message: seq![],
            term_width,
            term_height,
            tab_width: DEFAULT_TAB_WIDTH,
            wraps_line: false,
        };
        let height = base.height_for(DEFAULT_PANE_HEIGHT);
        let sized = PaneView { height, flushed: height, ..base };
        PaneView { out: sweep_seq(height) + next_line_seq(sized.pane_height()), ..sized }
    }

    /// The position never lies behind the lines, and there is no horizontal
    /// offset while lines are wrapped.
    pub open spec fn wf(self) -> bool {
        &&& self.y <= self.lines.len()
        &&& self.wraps_line ==> self.x == 0
    }

    // Geometry

    /// The height of the pane: the height asked for, as far as the terminal
    /// has rows.
    pub open spec fn pane_height(self) -> u16 {
        if self.term_height < self.height {
            self.term_height
        } else {
            self.height
        }
    }

    /// The width and the height of the pane.
    pub open spec fn pane_size(self) -> (u16, u16) {
        (self.term_width, self.pane_height())
    }

    /// The width of the line numbers: as many columns as the number of lines
    /// has digits, and at least two.
    pub open spec fn number_width(self) -> nat {
        if decimal(self.lines.len()).len() < 2 {
            2
        } else {
            decimal(self.lines.len()).len()
        }
    }

    /// The width of the gutter: that of the line numbers where they are
    /// shown.
    pub open spec fn gutter(self) -> nat {
        if self.show_linenumber {
            self.number_width()
        } else {
            0
        }
    }

    /// The columns for the marks at the edges: one while lines are wrapped,
    /// two otherwise.
    pub open spec fn mark_space(self) -> nat {
        if self.wraps_line {
            1
        } else {
            2
        }
    }

    /// The width of the text area: what the gutter and the marks leave of
    /// the pane.
    pub open spec fn text_width(self) -> nat {
        if self.term_width > self.gutter() + self.mark_space() {
            (self.term_width - self.gutter() - self.mark_space()) as nat
        } else {
            0
        }
    }

    /// The width that counts for horizontal scrolling: what the gutter
    /// leaves of the pane.
    pub open spec fn printable_width(self) -> nat {
        if self.term_width > self.gutter() {
            (self.term_width - self.gutter()) as nat
        } else {
            0
        }
    }

    /// The range of the lines that are shown: from the line at the top to
    /// the end of the buffer or of the pane.
    pub open spec fn visible(self) -> (int, int) {
        let len = self.lines.len() as int;
        let start = if self.y <= len {
            self.y as int
        } else {
            len
        };
        if len - start < self.pane_height() {
            (start, len)
        } else {
            (start, start + self.pane_height())
        }
    }

    /// The largest display width among the lines that are shown.
    pub open spec fn visible_width(self) -> u16 {
        clamp16(max_width(self.lines, self.visible().0, self.visible().1) as int)
    }

    /// Where the horizontal offset `next_x` comes to lie, with lines of at
    /// most `max_len` columns. Where the pane shows the longest line with
    /// the margin behind it, the offset is zero. Otherwise the end of the
    /// line with the margin does not come in front of the right edge of the
    /// pane.
    pub open spec fn limit_right_x(self, next_x: int, max_len: int) -> int {
        let margined_len = max_len + MARGIN_RIGHT_WIDTH;
        let pane_width = self.printable_width() as int;
        if pane_width >= margined_len {
            0
        } else if next_x + pane_width <= margined_len {
            next_x
        } else {
            margined_len - pane_width
        }
    }

    /// The number of rows that `line` is counted for while lines are
    /// wrapped: one more than the times that the text area goes into its
    /// bytes.
    pub open spec fn wrapped_rows(self, line: Seq<char>) -> nat {
        if self.text_width() == 0 {
            0
        } else {
            byte_len(line) / self.text_width() + 1
        }
    }

    /// The index of the last line at or above the index `i` from which on
    /// the lines fill the pane, where the lines behind `i` count for `sum`
    /// rows; zero where there is none.
    pub open spec fn wrap_bottom(self, i: int, sum: int) -> int
        decreases i + 1,
    {
        if i < 0 || i >= self.lines.len() {
            0
        } else if sum + self.wrapped_rows(self.lines[i]) >= self.pane_height() {
            i
        } else {
            self.wrap_bottom(i - 1, sum + self.wrapped_rows(self.lines[i]))
        }
    }

    /// The last position of the top of the pane: the index of the line from
    /// which on the lines fill the pane. While lines are wrapped, the rows
    /// of the lines are counted from the end of the buffer until they fill
    /// the pane.
    pub open spec fn bottom_y(self) -> u16 {
        let len = self.lines.len() as int;
        if !self.wraps_line {
            if len > self.pane_height() {
                clamp16(len - self.pane_height())
            } else {
                0
            }
        } else {
            clamp16(self.wrap_bottom(len - 1, 0))
        }
    }

    // Commands

    /// The pane with the lines `lines`, at the top left.
    pub open spec fn load(self, lines: Seq<Seq<char>>) -> PaneView {
        PaneView { lines, x: 0, y: 0, ..self }
    }

    /// The pane with `lines` added to its buffer.
    pub open spec fn append(self, lines: Seq<Seq<char>>) -> PaneView {
        PaneView { lines: self.lines + lines, ..self }
    }

    /// How far `scroll_up` moves: by the step, with pages of the height of
    /// the pane, but not beyond the first line.
    pub open spec fn up_distance(self, ss: ScrollStep) -> u16 {
        let step = ss.amount(self.pane_height() as int);
        if self.y > step {
            step as u16
        } else {
            self.y
        }
    }

    /// The pane after `scroll_up`.
    pub open spec fn scroll_up(self, ss: ScrollStep) -> PaneView {
        PaneView { y: (self.y - self.up_distance(ss)) as u16, ..self }
    }

    /// How far `scroll_down` moves: by the step, with pages of the height
    /// of the pane, but not beyond the last position.
    pub open spec fn down_distance(self, ss: ScrollStep) -> u16 {
        let step = ss.amount(self.pane_height() as int);
        let end_y = self.bottom_y();
        if end_y > self.y + step {
            step as u16
        } else if end_y > self.y {
            (end_y - self.y) as u16
        } else {
            0
        }
    }

    /// The pane after `scroll_down`.
    pub open spec fn scroll_down(self, ss: ScrollStep) -> PaneView {
        PaneView { y: (self.y + self.down_distance(ss)) as u16, ..self }
    }

    /// How far `scroll_left` moves: by the step, with pages of the width
    /// that the gutter leaves of the pane, but not beyond the first column.
    pub open spec fn left_distance(self, ss: ScrollStep) -> u16 {
        let step = ss.amount(self.printable_width() as int);
        if self.wraps_line {
            0
        } else if self.x > step {
            step as u16
        } else {
            self.x
        }
    }

    /// The pane after `scroll_left`.
    pub open spec fn scroll_left(self, ss: ScrollStep) -> PaneView {
        PaneView { x: (self.x - self.left_distance(ss)) as u16, ..self }
    }

    /// The horizontal offset after `scroll_right`.
    pub open spec fn right_target(self, ss: ScrollStep) -> u16 {
        let step = ss.amount(self.printable_width() as int);
        if self.wraps_line {
            self.x
        } else {
            clamp16(self.limit_right_x(self.x + step, self.visible_width() as int))
        }
    }

    /// How far `scroll_right` moves to the right; zero where the limit
    /// brings the pane to the left.
    pub open spec fn right_distance(self, ss: ScrollStep) -> u16 {
        if self.right_target(ss) > self.x {
            (self.right_target(ss) - self.x) as u16
        } else {
            0
        }
    }

    /// The pane after `scroll_right`.
    pub open spec fn scroll_right(self, ss: ScrollStep) -> PaneView {
        PaneView { x: self.right_target(ss), ..self }
    }

    /// The pane at the top left.
    pub open spec fn goto_top_of_lines(self) -> PaneView {
        PaneView { x: 0, y: 0, ..self }
    }

    /// The pane at the last position, at the first column.
    pub open spec fn goto_bottom_of_lines(self) -> PaneView {
        PaneView { x: 0, y: self.bottom_y(), ..self }
    }

    /// The pane at the first column.
    pub open spec fn goto_head_of_line(self) -> PaneView {
        if self.wraps_line {
            self
        } else {
            PaneView { x: 0, ..self }
        }
    }

    /// The pane at the end of the longest line that is shown.
    pub open spec fn goto_tail_of_line(self) -> PaneView {
        if self.wraps_line {
            self
        } else {
            PaneView {
                x: clamp16(
                    self.limit_right_x(self.visible_width() as int, self.visible_width() as int),
                ),
                ..self
            }
        }
    }

    /// The index of the line that `goto_absolute_line(lineno)` goes to: the
    /// last line where `lineno` lies behind it.
    pub open spec fn line_target(self, lineno: u16) -> u16 {
        if self.lines.len() == 0 {
            0
        } else if lineno >= self.lines.len() {
            (self.lines.len() - 1) as u16
        } else {
            lineno
        }
    }

    /// The pane with the line `lineno` at its top.
    pub open spec fn goto_absolute_line(self, lineno: u16) -> PaneView {
        PaneView { y: self.line_target(lineno), ..self }
    }

    /// The pane at the horizontal offset `offset`, as far as the limit lets
    /// it go.
    pub open spec fn goto_absolute_horizontal_offset(self, offset: u16) -> PaneView {
        if self.wraps_line {
            self
        } else {
            PaneView {
                x: clamp16(self.limit_right_x(offset as int, self.visible_width() as int)),
                ..self
            }
        }
    }

    /// The greatest height of a pane: one row of the terminal is kept for
    /// the status line.
    pub open spec fn max_height(self) -> u16 {
        if self.term_height >= MESSAGE_BAR_HEIGHT {
            (self.term_height - MESSAGE_BAR_HEIGHT) as u16
        } else {
            0
        }
    }

    /// The height that `set_height(n)` sets: one for zero, and at most the
    /// greatest height.
    pub open spec fn height_for(self, n: u16) -> u16 {
        if n == 0 {
            1
        } else if n > self.max_height() {
            self.max_height()
        } else {
            n
        }
    }

    /// The pane after `set_height(n)`.
    pub open spec fn set_height(self, n: u16) -> PaneView {
        PaneView { height: self.height_for(n), ..self }
    }

    /// The pane after `increment_height(n)`.
    pub open spec fn increment_height(self, n: u16) -> PaneView {
        self.set_height(clamp16(self.height + n))
    }

    /// The pane after `decrement_height(n)`: the height does not fall below
    /// one.
    pub open spec fn decrement_height(self, n: u16) -> PaneView {
        self.set_height(
            if self.height > n {
                (self.height - n) as u16
            } else {
                1
            },
        )
    }

    /// The pane after `set_wrap(b)`: there is no horizontal offset while
    /// lines are wrapped.
    pub open spec fn set_wrap(self, b: bool) -> PaneView {
        PaneView {
            wraps_line: b,
            x: if b {
                0
            } else {
                self.x
            },
            ..self
        }
    }

    /// The pane after `set_message(msg)`.
    pub open spec fn set_message(self, msg: Option<Seq<char>>) -> PaneView {
        PaneView {
            message: match msg {
                Some(m) => m,
                None => seq![],
            },
            ..self
        }
    }

    // Rendering

    /// The matches to highlight in the line `text`: those of the searcher,
    /// and none where its pattern is empty.
    pub open spec fn hl_ranges(self, text: Seq<char>) -> Seq<(usize, usize)> {
        if self.engine.pattern().len() == 0 {
            seq![]
        } else {
            ends_of(self.engine.all(text))
        }
    }

    /// What stands in the gutter of a row of the line with the index `n`:
    /// its number in its first row, spaces in the rows that follow, and
    /// nothing where line numbers are not shown.
    pub open spec fn gutter_text(self, n: int, first: bool) -> Seq<char> {
        if !self.show_linenumber {
            seq![]
        } else if first {
            numbered(self.number_width(), n)
        } else {
            unnumbered(self.number_width())
        }
    }

    /// The slice `trimmed` of a line, from the byte offset `range.0` to
    /// `range.1`, as it is shown: with the matches `ranges` highlighted
    /// where highlighting is on.
    pub open spec fn body(self, trimmed: Seq<char>, range: (nat, nat), ranges: Seq<(usize, usize)>) -> Seq<
        char,
    > {
        if self.show_highlight {
            highlighted(trimmed, range.0 as int, range.1 as int, ranges)
        } else {
            trimmed
        }
    }

    /// The divider of the expanded line `text`, at its start.
    pub open spec fn divider(self, text: Seq<char>) -> Division {
        Division { text, prev: 0, pos: 0, width: self.text_width() }
    }

    /// The row for the line `raw` with the index `n` while lines are cut.
    ///
    /// The tabs of the line are expanded. From the horizontal offset on,
    /// what fits into the text area is shown. In front of it stand the line
    /// number, where line numbers are shown, and a mark where the beginning
    /// of the line is cut off, else a space. Behind it stands a mark in the
    /// last column where the end of the line is cut off, else the sequence
    /// that resets the styles.
    pub open spec fn decorate_trim(self, raw: Seq<char>, n: int) -> Seq<char> {
        let text = expanded(raw, self.tab_width as nat);
        let sought = self.divider(text).after_seek(SeekFrom::Start(self.x as u64));
        let trimmed = match sought.next_slice() {
            Some(s) => s,
            None => seq![],
        };
        let range = sought.after_next().last_range();
        let sol = if range.0 > 0 {
            extend_mark('+')
        } else {
            seq![' ']
        };
        let eol = if byte_len(text) > range.1 {
            horizontal_absolute_seq(self.term_width) + extend_mark('+')
        } else {
            reset_seq()
        };
        self.gutter_text(n, true) + sol + self.body(trimmed, range, self.hl_ranges(text)) + eol
    }

    /// The rows from the row with the index `k` on for the line with the
    /// index `n` while lines are wrapped, at most `room` of them, where the
    /// divider `d` stands behind the rows in front of them.
    pub open spec fn wrap_rows(self, d: Division, n: int, k: nat, room: nat) -> Seq<Seq<char>>
        decreases room,
    {
        if room == 0 {
            seq![]
        } else {
            match d.next_slice() {
                None => seq![],
                Some(trimmed) => {
                    let first = k * self.text_width() == 0;
                    let sol = if first {
                        seq![' ']
                    } else {
                        extend_mark('+')
                    };
                    let row = self.gutter_text(n, first) + sol + self.body(
                        trimmed,
                        d.after_next().last_range(),
                        self.hl_ranges(d.text),
                    );
                    seq![row] + self.wrap_rows(d.after_next(), n, k + 1, (room - 1) as nat)
                },
            }
        }
    }

    /// The rows for the line `raw` with the index `n` while lines are
    /// wrapped, at most `room` of them.
    ///
    /// The tabs of the line are expanded, and the line is divided into
    /// slices that fit into the text area, one for each row. The line
    /// number stands in front of the first row, and a mark in front of each
    /// row that follows. An empty line has one row, with its line number.
    pub open spec fn decorate_wrap(self, raw: Seq<char>, n: int, room: nat) -> Seq<Seq<char>> {
        let text = expanded(raw, self.tab_width as nat);
        if text.len() == 0 {
            seq![self.gutter_text(n, true)]
        } else {
            self.wrap_rows(self.divider(text), n, 0, room)
        }
    }

    /// The rows for the line `raw` with the index `n`, at most `room` of
    /// them where lines are wrapped.
    pub open spec fn decorate(self, raw: Seq<char>, n: int, room: nat) -> Seq<Seq<char>> {
        if self.wraps_line {
            self.decorate_wrap(raw, n, room)
        } else {
            seq![self.decorate_trim(raw, n)]
        }
    }

    /// The rows for the lines `lines[i..end]`, as long as there is room:
    /// the rows of a line take of the room what they need, and the lines
    /// behind it get what is left.
    pub open spec fn rows_from(self, i: int, end: int, room: int) -> Seq<Seq<char>>
        decreases end - i,
    {
        if i >= end || room <= 0 {
            seq![]
        } else {
            let rows = self.decorate(self.lines[i], i, room as nat);
            rows + self.rows_from(i + 1, end, room - rows.len())
        }
    }

    /// The rows of the pane: those of the lines that are shown, as far as
    /// the pane has rows.
    pub open spec fn rows(self) -> Seq<Seq<char>> {
        self.rows_from(self.visible().0, self.visible().1, self.pane_height() as int)
    }

    /// The status line: the message, or without one the marker of the end
    /// where the pane stands at its last position or behind it.
    pub open spec fn status(self) -> Seq<char> {
        if self.message.len() == 0 && self.visible().0 >= self.bottom_y() {
            end_marker()
        } else {
            self.message
        }
    }

    /// What brings the cursor from below the lines that are shown to the
    /// status line: nothing where the lines fill the pane.
    pub open spec fn to_status(self) -> Seq<char> {
        let shown = self.visible().1 - self.visible().0;
        if self.pane_height() > shown {
            next_line_seq((self.pane_height() - shown) as u16)
        } else {
            seq![]
        }
    }

    /// What a redraw writes to show the pane: the rows, the way to the
    /// status line, and the status line.
    pub open spec fn block(self) -> Seq<char> {
        joined(self.rows()) + self.to_status() + self.status()
    }

    /// What brings the cursor from the status line to the first row of the
    /// last redraw.
    pub open spec fn return_home(self) -> Seq<char> {
        if self.flushed > 0 {
            previous_line_seq(self.flushed)
        } else {
            seq![]
        }
    }

    /// The number of rows that a redraw clears: those of the last redraw,
    /// and no fewer than the pane has.
    pub open spec fn swept(self) -> u16 {
        if self.flushed > self.pane_height() {
            self.flushed
        } else {
            self.pane_height()
        }
    }

    /// What a redraw writes: the cursor goes back to the first row of the
    /// last redraw, the rows are cleared, and the pane is written.
    pub open spec fn frame(self) -> Seq<char> {
        self.return_home() + sweep_seq(self.swept()) + self.block()
    }

    /// The pane after a redraw. The frame is written, and the rows of the
    /// pane count as flushed.
    #[verifier::opaque]
    pub open spec fn refresh(self) -> PaneView {
        PaneView { out: self.out + self.frame(), flushed: self.pane_height(), ..self }
    }

    /// The pane after `quit`.
    pub open spec fn quit(self) -> PaneView {
        PaneView { out: self.out + quit_seq(), ..self }
    }

    /// The pane after `quit_with_clear`: the rows of the last redraw are
    /// cleared before the pane is left.
    pub open spec fn quit_with_clear(self) -> PaneView {
        PaneView {
            out: self.out + self.return_home() + sweep_seq(self.flushed) + quit_seq(),
            ..self
        }
    }
}

} // verus!
