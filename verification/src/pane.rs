//! The pane: the part of the terminal in which the lines are shown.

use vstd::prelude::*;
use vstd::string::*;
use crate::app::{fed, lemma_fed_grows, PipeReader};
use crate::csi::cursor_ext::{HorizontalAbsolute, NextLine, PreviousLine};
use crate::csi::{clear_current_line, fg_light_black, style_invert, style_reset};
use crate::pane::highlight::push_highlighted;
use crate::pane::view::{
    clamp16, cleared_lines, end_marker, ends_of, extend_mark, joined, max_width, numbered,
    sweep_seq, unnumbered, PaneView, DEFAULT_PANE_HEIGHT, DEFAULT_TAB_WIDTH,
};
use crate::search::{NullSearcher, Search, Searcher};
use crate::tab::TabExpand;
use crate::text::{
    decimal_chars, push_range, push_right_aligned, push_spaces, str_byte_len, to_chars,
};
use crate::unicode_divide::{SeekFrom, UnicodeStrDivider};
use crate::width::width_of_str;

pub mod highlight;
pub mod laws;
pub mod view;

verus! {

/// A step of scrolling: a number of columns or lines, of half pages, or of
/// pages. What a page is depends on the pane at the time of the step.
#[derive(Debug)]
pub enum ScrollStep {
    Char(u16),
    HalfPage(u16),
    Page(u16),
}

impl ScrollStep {
    /// The number of columns or lines of the step, with pages of
    /// `page_size`.
    pub open spec fn amount(self, page_size: int) -> int {
        match self {
            ScrollStep::Char(n) => n as int,
            ScrollStep::HalfPage(n) => (page_size * n) / 2,
            ScrollStep::Page(n) => page_size * n,
        }
    }

    /// The number of columns or lines of the step, with pages of
    /// `page_size`.
    pub fn to_numof_chars(&self, page_size: u16) -> (r: u32)
        ensures
            r == self.amount(page_size as int),
    {
        match *self {
            ScrollStep::Char(n) => n as u32,
            ScrollStep::HalfPage(n) => {
                assert(page_size * n <= 0xffff * 0xffff) by (nonlinear_arith)
                    requires
                        page_size <= 0xffff,
                        n <= 0xffff,
                ;
                (page_size as u32 * n as u32) / 2
            },
            ScrollStep::Page(n) => {
                assert(page_size * n <= 0xffff * 0xffff) by (nonlinear_arith)
                    requires
                        page_size <= 0xffff,
                        n <= 0xffff,
                ;
                page_size as u32 * n as u32
            },
        }
    }
}

/// The mark that says that a line goes on beyond the edge of the pane.
pub struct ExtendMark(pub char);

impl ExtendMark {
    /// Appends the mark to `out`.
    pub fn write_to(&self, out: &mut String)
        ensures
            final(out)@ == old(out)@ + extend_mark(self.0),
    {
        let colour = fg_light_black();
        out.append(colour.as_str());
        out.push(self.0);
        let reset = style_reset();
        out.append(reset.as_str());
        assert(out@ =~= old(out)@ + extend_mark(self.0));
    }

    /// The mark as a string.
    pub fn to_string(&self) -> (s: String)
        ensures
            s@ == extend_mark(self.0),
    {
        let mut s = String::new();
        self.write_to(&mut s);
        assert(s@ =~= extend_mark(self.0));
        s
    }
}

/// The texts of the lines.
pub open spec fn texts(lines: Seq<String>) -> Seq<Seq<char>> {
    lines.map_values(|s: String| s@)
}

/// The pane.
///
/// It holds the lines, the position in them and the options, and writes
/// what the terminal is to show into a buffer, from which
/// [`Pane::take_output`] takes it.
pub struct Pane {
    linebuf: Vec<String>,
    writer: String,
    height: u16,
    numof_flushed_lines: u16,
    // cur_pos: (x, y)
    cur_pos: (u16, u16),
    show_linenumber: bool,
    show_highlight: bool,
    hlsearcher: Searcher,
    message: String,
    termsize: (u16, u16),
    tab_width: usize,
    wraps_line: bool,
}

impl View for Pane {
    type V = PaneView;

    closed spec fn view(&self) -> PaneView {
        PaneView {
            lines: texts(self.linebuf@),
            out: self.writer@,
            height: self.height,
            flushed: self.numof_flushed_lines,
            x: self.cur_pos.0,
            y: self.cur_pos.1,
            show_linenumber: self.show_linenumber,
            show_highlight: self.show_highlight,
            engine: self.hlsearcher.engine(),
            message: self.message@,
            term_width: self.termsize.0,
            term_height: self.termsize.1,
            tab_width: self.tab_width,
            wraps_line: self.wraps_line,
        }
    }
}

/// `v`, or the largest `u16` where `v` is larger.
pub fn to_u16(v: usize) -> (r: u16)
    ensures
        r == clamp16(v as int),
{
    if v > 0xffff {
        0xffff
    } else {
        v as u16
    }
}

/// Appends `n` times the sequence that clears a line, and a line feed.
fn push_cleared_lines(out: &mut String, n: u16)
    ensures
        final(out)@ == old(out)@ + cleared_lines(n as nat),
{
    let clear = clear_current_line();
    let mut i: u16 = 0;
    assert(out@ + cleared_lines(0) =~= out@);
    while i < n
        invariant
            i <= n,
            clear@ == crate::csi::clear_line_seq(),
            out@ == old(out)@ + cleared_lines(i as nat),
        decreases n - i,
    {
        out.append(clear.as_str());
        out.push('\n');
        i = i + 1;
        assert(out@ =~= old(out)@ + cleared_lines(i as nat));
    }
}

/// Joining the rows of two sequences joins what the two give.
pub proof fn lemma_joined_concat(a: Seq<Seq<char>>, b: Seq<Seq<char>>)
    ensures
        joined(a + b) == joined(a) + joined(b),
    decreases b.len(),
{
    if b.len() == 0 {
        assert(a + b =~= a);
        assert(joined(a) + joined(b) =~= joined(a));
    } else {
        lemma_joined_concat(a, b.drop_last());
        assert((a + b).drop_last() =~= a + b.drop_last());
        assert(joined(a + b) =~= joined(a) + joined(b));
    }
}

/// Appends the rows, each followed by a line feed.
fn push_rows(out: &mut String, rows: &Vec<String>)
    ensures
        final(out)@ == old(out)@ + joined(texts(rows@)),
{
    let ghost all = texts(rows@);
    let mut j: usize = 0;
    assert(out@ + joined(all.take(0)) =~= out@);
    while j < rows.len()
        invariant
            j <= rows.len(),
            all == texts(rows@),
            out@ == old(out)@ + joined(all.take(j as int)),
        decreases rows.len() - j,
    {
        out.append(rows[j].as_str());
        out.push('\n');
        assert(all.take(j + 1).drop_last() =~= all.take(j as int));
        assert(out@ =~= old(out)@ + joined(all.take(j + 1)));
        j = j + 1;
    }
    assert(all.take(rows.len() as int) =~= all);
}

impl Pane {
    /// The columns that stay free to the right of the longest line when the
    /// pane is scrolled to the end of the lines.
    pub const MARGIN_RIGHT_WIDTH: u16 = crate::pane::view::MARGIN_RIGHT_WIDTH;

    /// The rows that the status line takes below the pane.
    pub const MESSAGE_BAR_HEIGHT: u16 = crate::pane::view::MESSAGE_BAR_HEIGHT;

    /// A new pane in a terminal of `term_width` columns and `term_height`
    /// rows.
    pub fn new(term_width: u16, term_height: u16) -> (pane: Self)
        ensures
            pane@ == PaneView::initial(term_width, term_height),
    {
        let mut pane = Pane {
            linebuf: Vec::new(),
            writer: String::new(),
            height: DEFAULT_PANE_HEIGHT,
            numof_flushed_lines: DEFAULT_PANE_HEIGHT,
            cur_pos: (0, 0),
            show_linenumber: false,
            show_highlight: false,
            hlsearcher: Searcher::Null(NullSearcher::new()),
            message: String::new(),
            termsize: (term_width, term_height),
            tab_width: DEFAULT_TAB_WIDTH,
            wraps_line: false,
        };
        assert(texts(pane.linebuf@) =~= Seq::<Seq<char>>::empty());
        // limit pane height if terminal height is less than pane height.
        pane.set_height(DEFAULT_PANE_HEIGHT);
        pane.numof_flushed_lines = pane.height;
        let height = pane.height;
        pane.sweep(height);
        pane.move_to_message_line();
        assert(pane.writer@ =~= sweep_seq(height) + crate::csi::cursor_ext::next_line_seq(
            pane@.pane_height(),
        ));
        pane
    }

    /// Writes what clears `n` rows and the row below them, from the row of
    /// the cursor on, and brings the cursor back to the first of them.
    fn sweep(&mut self, n: u16)
        ensures
            final(self)@ == (PaneView { out: old(self)@.out + sweep_seq(n), ..old(self)@ }),
    {
        HorizontalAbsolute(1).write_to(&mut self.writer);
        push_cleared_lines(&mut self.writer, n);
        let clear = clear_current_line();
        self.writer.append(clear.as_str());
        if n > 0 {
            PreviousLine(n).write_to(&mut self.writer);
        }
        assert(self.writer@ =~= old(self)@.out + sweep_seq(n));
    }

    /// Writes what brings the cursor from the first row of the pane to the
    /// status line.
    fn move_to_message_line(&mut self)
        ensures
            final(self)@ == (PaneView {
                out: old(self)@.out + crate::csi::cursor_ext::next_line_seq(
                    old(self)@.pane_height(),
                ),
                ..old(self)@
            }),
    {
        let ph = self.pane_size().1;
        NextLine(ph).write_to(&mut self.writer);
    }

    /// Writes what brings the cursor from the status line to the first row
    /// of the last redraw.
    fn return_home(&mut self)
        ensures
            final(self)@ == (PaneView {
                out: old(self)@.out + old(self)@.return_home(),
                ..old(self)@
            }),
    {
        if self.numof_flushed_lines > 0 {
            PreviousLine(self.numof_flushed_lines).write_to(&mut self.writer);
        } else {
            assert(self.writer@ + Seq::<char>::empty() =~= self.writer@);
        }
    }

    /// Tells the pane the size of the terminal.
    pub fn set_terminal_size(&mut self, term_width: u16, term_height: u16)
        ensures
            final(self)@ == (PaneView { term_width, term_height, ..old(self)@ }),
    {
        self.termsize = (term_width, term_height);
    }

    /// Takes what was written for the terminal.
    pub fn take_output(&mut self) -> (s: String)
        ensures
            s@ == old(self)@.out,
            final(self)@ == (PaneView { out: seq![], ..old(self)@ }),
    {
        let mut s = String::new();
        std::mem::swap(&mut self.writer, &mut s);
        s
    }

    /// Load text buffer and reset position.
    /// After this function is called, current pane postion is set to (0, 0).
    pub fn load(&mut self, buf: Vec<String>)
        ensures
            final(self)@ == old(self)@.load(texts(buf@)),
            final(self)@.wf(),
    {
        self.linebuf = buf;
        self.cur_pos = (0, 0);
    }

    /// Adds `lines` to the end of the buffer.
    pub fn append_lines(&mut self, lines: Vec<String>)
        ensures
            final(self)@ == old(self)@.append(texts(lines@)),
            old(self)@.wf() ==> final(self)@.wf(),
    {
        let ghost added = lines@;
        let mut lines = lines;
        self.linebuf.append(&mut lines);
        assert(texts(self.linebuf@) =~= texts(old(self).linebuf@) + texts(added));
    }

    /// Reads the chunk `chunk` from a pipe into the buffer: the lines of the
    /// chunk are added, and what the chunk starts with goes on the last line
    /// where that has no end yet.
    pub fn feed(&mut self, reader: &mut PipeReader, chunk: &str)
        ensures
            final(self)@ == (PaneView {
                lines: fed(old(self)@.lines, old(reader).open_line(), chunk@).0,
                ..old(self)@
            }),
            final(reader).open_line() == fed(old(self)@.lines, old(reader).open_line(), chunk@).1,
            old(self)@.wf() ==> final(self)@.wf(),
    {
        proof {
            lemma_fed_grows(self@.lines, reader.open_line(), chunk@);
        }
        reader.feed(&mut self.linebuf, chunk);
    }

    /// The lines of the buffer.
    pub fn lines(&self) -> (r: &Vec<String>)
        ensures
            texts(r@) == self@.lines,
    {
        &self.linebuf
    }

    /// The searcher whose matches are highlighted.
    pub fn searcher(&self) -> (r: &Searcher)
        ensures
            r.engine() == self@.engine,
    {
        &self.hlsearcher
    }

    /// The message in the status line.
    pub fn message(&self) -> (r: &str)
        ensures
            r@ == self@.message,
    {
        self.message.as_str()
    }

    /// Whether the matches of the search are highlighted.
    pub fn highlights(&self) -> (r: bool)
        ensures
            r == self@.show_highlight,
    {
        self.show_highlight
    }

    /// Whether line numbers are shown.
    pub fn shows_line_number(&self) -> (r: bool)
        ensures
            r == self@.show_linenumber,
    {
        self.show_linenumber
    }

    /// Return the range that matches the highlight word.
    pub fn hl_match_ranges(&self, raw: &str) -> (v: Vec<(usize, usize)>)
        ensures
            v@ == self@.hl_ranges(raw@),
    {
        let mut v: Vec<(usize, usize)> = Vec::new();
        if self.hlsearcher.as_str().is_empty() {
            return v;
        }
        let mut it = self.hlsearcher.find_iter(raw);
        let ghost all = self.hlsearcher.engine().all(raw@);
        assert(all.skip(0) =~= all);
        loop
            invariant
                v@.len() <= all.len(),
                it.remaining() == all.skip(v@.len() as int),
                v@ == ends_of(all.take(v@.len() as int)),
                all == self@.engine.all(raw@),
                self@.engine.pattern().len() != 0,
            decreases all.len() - v@.len(),
        {
            let ghost n = v@.len() as int;
            match it.next() {
                Some(m) => {
                    v.push((m.start(), m.end()));
                    assert(all.skip(n).drop_first() =~= all.skip(n + 1));
                    assert(v@ =~= ends_of(all.take(n + 1)));
                },
                None => {
                    assert(all.take(n) =~= all);
                    return v;
                },
            }
        }
    }

    /// The slice `trimed` of a line with the matches `hlranges`
    /// highlighted. The slice goes from the byte offset
    /// `trimrange.0` to `trimrange.1` of the line, and the matches are byte
    /// offsets into the line, in order.
    pub fn hl_words_for_trimed(
        trimed: &str,
        trimrange: &(usize, usize),
        hlranges: &[(usize, usize)],
    ) -> (hlline: String)
        ensures
            hlline@ == crate::pane::highlight::highlighted(
                trimed@,
                trimrange.0 as int,
                trimrange.1 as int,
                hlranges@,
            ),
    {
        let mut hlline = String::new();
        let chars = to_chars(trimed);
        push_highlighted(&mut hlline, &chars, trimrange, hlranges);
        assert(hlline@ =~= crate::pane::highlight::highlighted(
            trimed@,
            trimrange.0 as int,
            trimrange.1 as int,
            hlranges@,
        ));
        hlline
    }

    /// Appends what stands in the gutter of a row.
    fn push_gutter(&self, out: &mut String, line_number: u32, first: bool)
        ensures
            final(out)@ == old(out)@ + self@.gutter_text(line_number as int, first),
    {
        if !self.show_linenumber {
            assert(out@ + Seq::<char>::empty() =~= out@);
        } else if first {
            let lnum = Self::gen_line_number_string(
                self.line_number_printing_width(),
                line_number,
            );
            out.append(lnum.as_str());
        } else {
            let blank = Self::gen_blank_line_number_string(self.line_number_printing_width());
            out.append(blank.as_str());
        }
    }

    /// Generate line number string
    /// | 100 ......
    /// | 101 ......
    pub fn gen_line_number_string(width: usize, line_number: u32) -> (s: String)
        ensures
            s@ == numbered(width as nat, line_number as int),
    {
        let mut s = String::new();
        push_right_aligned(
            &mut s,
            line_number as u64 + 1,
            if width < 2 {
                2
            } else {
                width
            },
        );
        assert(s@ =~= numbered(width as nat, line_number as int));
        s
    }

    /// Generate blank line number string
    /// | 100 ......
    /// |    +......
    /// | 101 ......
    pub fn gen_blank_line_number_string(width: usize) -> (s: String)
        ensures
            s@ == unnumbered(width as nat),
    {
        let mut s = String::new();
        push_spaces(
            &mut s,
            if width < 2 {
                2
            } else {
                width
            },
        );
        assert(s@ =~= unnumbered(width as nat));
        s
    }

    /// The slice of the expanded line `text` that is shown while lines are
    /// cut: what fits into the text area from the horizontal offset on, and
    /// the byte offsets of its two ends.
    fn trim(&self, text: &str) -> (r: (Vec<char>, (usize, usize)))
        ensures
            r.0@ == (match self@.divider(text@).after_seek(
                SeekFrom::Start(self@.x as u64),
            ).next_slice() {
                Some(s) => s,
                None => seq![],
            }),
            r.1.0 == self@.divider(text@).after_seek(
                SeekFrom::Start(self@.x as u64),
            ).after_next().last_range().0,
            r.1.1 == self@.divider(text@).after_seek(
                SeekFrom::Start(self@.x as u64),
            ).after_next().last_range().1,
    {
        // trim unicode str considering visual unicode width
        let mut ucdiv = UnicodeStrDivider::new(text, self.width_of_text_area());
        let _ = ucdiv.seek(SeekFrom::Start(self.cur_pos.0 as u64));
        let trimed: Vec<char> = match ucdiv.next() {
            Some(s) => to_chars(s.as_str()),
            None => Vec::new(),
        };
        let uc_range = ucdiv.last_range();
        (trimed, uc_range)
    }

    /// Appends the slice of a line as it is shown: with the matches in the
    /// line highlighted where highlighting is on.
    fn push_body(&self, row: &mut String, text: &str, trimed: &Vec<char>, uc_range: &(usize, usize))
        ensures
            final(row)@ == old(row)@ + self@.body(
                trimed@,
                (uc_range.0 as nat, uc_range.1 as nat),
                self@.hl_ranges(text@),
            ),
    {
        // highlight line
        if self.show_highlight {
            let hl_ranges = self.hl_match_ranges(text);
            push_highlighted(row, trimed, uc_range, hl_ranges.as_slice());
        } else {
            push_range(row, trimed, 0, trimed.len());
            assert(trimed@.subrange(0, trimed.len() as int) =~= trimed@);
        }
    }

    /// Decorate line
    ///
    /// | 12+xxxxxxxxxxxxxxxxxxxxxxxxxx+|
    /// | 13+xxxxxxx.                   |
    /// | 14+xxxxxxxxxxxx.              |
    ///
    pub fn decorate_trim(&self, raw: &str, line_number: u32) -> (row: String)
        ensures
            row@ == self@.decorate_trim(raw@, line_number as int),
    {
        // replace tabs with spaces
        let raw_notab = raw.expand_tab(self.tab_width);
        let (trimed, uc_range) = self.trim(raw_notab.as_str());

        let ghost n = line_number as int;
        let ghost range = (uc_range.0 as nat, uc_range.1 as nat);
        let ghost gutter = self@.gutter_text(n, true);
        let ghost sol = if range.0 > 0 {
            extend_mark('+')
        } else {
            seq![' ']
        };
        let ghost body = self@.body(trimed@, range, self@.hl_ranges(raw_notab@));

        let mut row = String::new();
        // add line number
        self.push_gutter(&mut row, line_number, true);
        assert(row@ =~= gutter);
        // add extend marks
        if uc_range.0 > 0 {
            ExtendMark('+').write_to(&mut row);
        } else {
            row.push(' ');
        }
        assert(row@ =~= gutter + sol);
        self.push_body(&mut row, raw_notab.as_str(), &trimed, &uc_range);
        assert(row@ == gutter + sol + body);
        // add extend marks
        if str_byte_len(raw_notab.as_str()) > uc_range.1 {
            HorizontalAbsolute(self.pane_size().0).write_to(&mut row);
            ExtendMark('+').write_to(&mut row);
            assert(row@ =~= gutter + sol + body + (
            crate::csi::cursor_ext::horizontal_absolute_seq(self@.term_width) + extend_mark('+')));
        } else {
            let reset = style_reset();
            row.append(reset.as_str());
        }
        row
    }

    /// Decorate line
    ///
    /// | 12 xxxxxxxxxxxxxxxxxxxxxxxxxxx|
    /// |   >xxxxxxx.                   |
    /// | 13 xxxxxxxxxxxx.              |
    ///
    pub fn decorate_wrap(&self, raw: &str, line_number: u32, room: u16) -> (rows: Vec<String>)
        ensures
            texts(rows@) == self@.decorate_wrap(raw@, line_number as int, room as nat),
            room >= 1 ==> rows.len() <= room,
    {
        // subtract line number space and extend_mark space from raw_range
        let line_cap_width = self.width_of_text_area();

        // replace tabs with spaces
        let raw_notab = raw.expand_tab(self.tab_width);

        let mut wrapped: Vec<String> = Vec::new();
        if str_byte_len(raw_notab.as_str()) == 0 {
            proof {
                crate::text::lemma_byte_len_bounds(raw_notab@);
            }
            // add line number
            let mut row = String::new();
            self.push_gutter(&mut row, line_number, true);
            wrapped.push(row);
            assert(texts(wrapped@) =~= self@.decorate_wrap(
                raw@,
                line_number as int,
                room as nat,
            ));
            return wrapped;
        }
        proof {
            crate::text::lemma_byte_len_bounds(raw_notab@);
        }
        let hl_ranges = if self.show_highlight {
            self.hl_match_ranges(raw_notab.as_str())
        } else {
            Vec::new()
        };
        let mut ucdiv = UnicodeStrDivider::new(raw_notab.as_str(), line_cap_width);
        let ghost n = line_number as int;
        let ghost whole = self@.decorate_wrap(raw@, n, room as nat);
        let mut k: u16 = 0;
        assert(texts(wrapped@) =~= Seq::<Seq<char>>::empty());
        assert(whole == self@.wrap_rows(ucdiv@, n, 0, room as nat));
        while k < room
            invariant
                k <= room,
                n == line_number as int,
                wrapped.len() == k,
                ucdiv@.text == raw_notab@,
                ucdiv@.width == self@.text_width(),
                line_cap_width == self@.text_width(),
                self@.show_highlight ==> hl_ranges@ == self@.hl_ranges(raw_notab@),
                whole == self@.decorate_wrap(raw@, n, room as nat),
                texts(wrapped@) + self@.wrap_rows(ucdiv@, n, k as nat, (room - k) as nat) == whole,
            decreases room - k,
        {
            let ghost d = ucdiv@;
            let ghost before = texts(wrapped@);
            let ghost k0 = k as nat;
            match ucdiv.next() {
                Some(s) => {
                    let trimed = to_chars(s.as_str());
                    let uc_range = ucdiv.last_range();
                    let first = k == 0 || line_cap_width == 0;
                    assert(first == (k0 * self@.text_width() == 0)) by (nonlinear_arith)
                        requires
                            first == (k0 == 0 || line_cap_width == 0),
                            line_cap_width == self@.text_width(),
                    ;
                    let mut row = String::new();
                    // add line number
                    self.push_gutter(&mut row, line_number, first);
                    // add wrap marks
                    if first {
                        row.push(' ');
                    } else {
                        ExtendMark('+').write_to(&mut row);
                    }
                    // highlight line
                    if self.show_highlight {
                        push_highlighted(&mut row, &trimed, &uc_range, hl_ranges.as_slice());
                    } else {
                        push_range(&mut row, &trimed, 0, trimed.len());
                        assert(trimed@.subrange(0, trimed.len() as int) =~= trimed@);
                    }
                    let ghost text = row@;
                    proof {
                        let sol = if first {
                            seq![' ']
                        } else {
                            extend_mark('+')
                        };
                        let expected = self@.gutter_text(n, first) + sol + self@.body(
                            trimed@,
                            d.after_next().last_range(),
                            self@.hl_ranges(d.text),
                        );
                        assert(text =~= expected);
                        assert(self@.wrap_rows(d, n, k0, (room - k0) as nat) == seq![expected]
                            + self@.wrap_rows(d.after_next(), n, k0 + 1, (room - k0 - 1) as nat));
                    }
                    wrapped.push(row);
                    k = k + 1;
                    proof {
                        let rest = self@.wrap_rows(ucdiv@, n, k as nat, (room - k) as nat);
                        assert(texts(wrapped@) =~= before.push(text));
                        assert(before + (seq![text] + rest) =~= texts(wrapped@) + rest);
                    }
                },
                None => {
                    assert(texts(wrapped@) + Seq::<Seq<char>>::empty() =~= texts(wrapped@));
                    return wrapped;
                },
            }
        }
        assert(texts(wrapped@) + Seq::<Seq<char>>::empty() =~= texts(wrapped@));
        wrapped
    }

    /// The rows for the line `raw` with the index `line_number`, at most
    /// `room` of them where lines are wrapped.
    pub fn decorate(&self, raw: &str, line_number: u32, room: u16) -> (rows: Vec<String>)
        ensures
            texts(rows@) == self@.decorate(raw@, line_number as int, room as nat),
            room >= 1 ==> rows.len() <= room,
    {
        if self.wraps_line {
            self.decorate_wrap(raw, line_number, room)
        } else {
            let mut rows: Vec<String> = Vec::new();
            let row = self.decorate_trim(raw, line_number);
            rows.push(row);
            assert(texts(rows@) =~= seq![self@.decorate_trim(raw@, line_number as int)]);
            rows
        }
    }

    /// The rows for the lines with the indices `from` to `to`, each followed
    /// by a line feed, as long as there is room.
    fn draw_lines(&self, from: usize, to: usize, room: u16) -> (block: String)
        requires
            from <= to <= self@.lines.len(),
            to <= 0x1_ffff,
        ensures
            block@ == joined(self@.rows_from(from as int, to as int, room as int)),
    {
        let ghost v = self@;
        let ghost all = v.rows_from(from as int, to as int, room as int);
        let mut block = String::new();
        let mut left: u16 = room;
        let mut i: usize = from;
        assert(block@ + joined(all) =~= joined(all));
        while i < to && left > 0
            invariant
                v == self@,
                from <= i <= to <= self.linebuf.len(),
                to <= 0x1_ffff,
                block@ + joined(v.rows_from(i as int, to as int, left as int)) == joined(all),
            decreases to - i,
        {
            let deco = self.decorate(self.linebuf[i].as_str(), i as u32, left);
            proof {
                assert(v.lines[i as int] == self.linebuf@[i as int]@);
                let rows = texts(deco@);
                let rest = v.rows_from(i + 1, to as int, left - rows.len());
                assert(v.rows_from(i as int, to as int, left as int) == rows + rest);
                lemma_joined_concat(rows, rest);
                assert(block@ + (joined(rows) + joined(rest)) =~= (block@ + joined(rows)) + joined(
                    rest,
                ));
            }
            push_rows(&mut block, &deco);
            left = left - deco.len() as u16;
            i = i + 1;
        }
        assert(block@ + Seq::<char>::empty() =~= block@);
        block
    }

    /// Appends the status line.
    fn push_status(&self, block: &mut String)
        ensures
            final(block)@ == old(block)@ + self@.status(),
    {
        let start = self.range_of_visible_lines().start;
        if self.message.as_str().is_empty() && start >= self.limit_bottom_y() as usize {
            let on = style_invert();
            block.append(on.as_str());
            block.push('(');
            block.push('E');
            block.push('N');
            block.push('D');
            block.push(')');
            let off = style_reset();
            block.append(off.as_str());
            assert(block@ =~= old(block)@ + end_marker());
        } else {
            block.append(self.message.as_str());
        }
    }

    /// What a redraw writes to show the pane.
    fn render_block(&self) -> (block: String)
        ensures
            block@ == self@.block(),
    {
        // decorate content lines
        let pane_height = self.pane_size().1;
        let buf_range = self.range_of_visible_lines();
        let mut block = self.draw_lines(buf_range.start, buf_range.end, pane_height);
        let ghost rows = block@;

        // move down to message bar position
        let shown = buf_range.end - buf_range.start;
        if pane_height as usize > shown {
            NextLine(pane_height - shown as u16).write_to(&mut block);
        } else {
            assert(block@ + Seq::<char>::empty() =~= block@);
        }
        assert(block@ == rows + self@.to_status());
        // message line
        self.push_status(&mut block);
        block
    }

    /// Writes a frame with the block `block`: the cursor goes back to the
    /// first row of the last redraw, the rows are cleared, and the block is
    /// written.
    fn write_frame(&mut self, block: &str)
        ensures
            final(self)@ == (PaneView {
                out: old(self)@.out + (old(self)@.return_home() + sweep_seq(old(self)@.swept())
                    + block@),
                ..old(self)@
            }),
    {
        let pane_height = self.pane_size().1;
        let swept = if self.numof_flushed_lines > pane_height {
            self.numof_flushed_lines
        } else {
            pane_height
        };
        self.return_home();
        self.sweep(swept);
        self.writer.append(block);
        assert(self.writer@ =~= old(self)@.out + (old(self)@.return_home() + sweep_seq(
            old(self)@.swept(),
        ) + block@));
    }

    /// Writes what shows the pane as it is now.
    pub fn refresh(&mut self)
        ensures
            final(self)@ == old(self)@.refresh(),
            old(self)@.wf() ==> final(self)@.wf(),
    {
        reveal(PaneView::refresh);
        let pane_height = self.pane_size().1;
        let block = self.render_block();
        self.write_frame(block.as_str());
        self.numof_flushed_lines = pane_height;
    }

    /// Writes what leaves the pane: the cursor goes to the first column,
    /// and its line is cleared.
    pub fn quit(&mut self)
        ensures
            final(self)@ == old(self)@.quit(),
    {
        HorizontalAbsolute(1).write_to(&mut self.writer);
        let clear = clear_current_line();
        self.writer.append(clear.as_str());
        assert(self.writer@ =~= old(self)@.out + crate::pane::view::quit_seq());
    }

    /// Writes what clears the rows of the last redraw and leaves the pane.
    pub fn quit_with_clear(&mut self)
        ensures
            final(self)@ == old(self)@.quit_with_clear(),
    {
        self.return_home();
        self.sweep(self.numof_flushed_lines);
        HorizontalAbsolute(1).write_to(&mut self.writer);
        let clear = clear_current_line();
        self.writer.append(clear.as_str());
        assert(self.writer@ =~= old(self)@.out + old(self)@.return_home() + sweep_seq(
            old(self)@.flushed,
        ) + crate::pane::view::quit_seq());
    }

    pub fn line_number_printing_width(&self) -> (r: usize)
        ensures
            r == self@.number_width(),
    {
        let digits = decimal_chars(self.linebuf.len() as u64).len();
        if digits < 2 {
            2
        } else {
            digits
        }
    }

    pub fn show_line_number(&mut self, b: bool)
        ensures
            final(self)@ == (PaneView { show_linenumber: b, ..old(self)@ }),
    {
        self.show_linenumber = b;
    }

    pub fn show_highlight(&mut self, b: bool)
        ensures
            final(self)@ == (PaneView { show_highlight: b, ..old(self)@ }),
    {
        self.show_highlight = b;
    }

    pub fn set_highlight_searcher(&mut self, searcher: Searcher)
        ensures
            final(self)@ == (PaneView { engine: searcher.engine(), ..old(self)@ }),
    {
        self.hlsearcher = searcher;
    }

    /// Sets the pattern of the searcher. A pattern that the searcher cannot
    /// take is refused, and the searcher stays as it was.
    pub fn set_pattern(&mut self, pat: &str) -> (r: Result<(), crate::search::SearchError>)
        ensures
            final(self)@ == (PaneView {
                engine: old(self)@.engine.with_pattern(pat@),
                ..old(self)@
            }),
            r is Ok <==> old(self)@.engine.accepts(pat@),
    {
        self.hlsearcher.set_pattern(pat)
    }

    pub fn set_message(&mut self, msg: Option<String>)
        ensures
            final(self)@ == old(self)@.set_message(crate::event::text_view(msg)),
    {
        match msg {
            Some(m) => {
                self.message = m;
            },
            None => {
                self.message = String::new();
            },
        }
    }

    /// Return pane size (width, height)
    pub fn pane_size(&self) -> (r: (u16, u16))
        ensures
            r == self@.pane_size(),
    {
        let (tw, th) = self.termsize;
        (
            tw,
            if th < self.height {
                th
            } else {
                self.height
            },
        )
    }

    /// Return (x, y)
    pub fn position(&self) -> (r: (u16, u16))
        ensures
            r == (self@.x, self@.y),
    {
        self.cur_pos
    }

    /// Return logical lines (wrapped lines) of specified line number.
    fn count_wrapped_lines(&self, text: &str) -> (r: u128)
        ensures
            r == self@.wrapped_rows(text@),
            r <= usize::MAX + 1,
    {
        let pane_width = self.width_of_text_area();
        if pane_width == 0 {
            0
        } else {
            (str_byte_len(text) as u128) / (pane_width as u128) + 1
        }
    }

    /// Return the end of y that is considered buffer lines and window size and wrapped lines.
    pub fn limit_bottom_y(&self) -> (r: u16)
        ensures
            r == self@.bottom_y(),
    {
        let len = self.linebuf.len();
        let pane_height = self.pane_size().1;

        if !self.wraps_line {
            return if len > pane_height as usize {
                to_u16(len - pane_height as usize)
            } else {
                0
            };
        }
        // self.wraps_line is enabled

        let mut sum: u16 = 0;
        let mut i: usize = len;
        while i > 0
            invariant
                i <= len,
                len == self.linebuf.len(),
                self.wraps_line,
                pane_height == self@.pane_height(),
                self@.wrap_bottom(i - 1, sum as int) == self@.wrap_bottom(len - 1, 0),
            decreases i,
        {
            let rows = self.count_wrapped_lines(self.linebuf[i - 1].as_str());
            assert(self@.lines[i - 1] == self.linebuf@[i - 1]@);
            if sum as u128 + rows >= pane_height as u128 {
                return to_u16(i - 1);
            }
            sum = (sum as u128 + rows) as u16;
            i = i - 1;
        }
        0
    }

    /// Return text area width.
    pub fn width_of_text_area(&self) -> (r: usize)
        ensures
            r == self@.text_width(),
    {
        let pane_width = self.pane_size().0 as usize;
        let extend_mark_space: usize = if self.wraps_line {
            1
        } else {
            2
        };
        let lnpw: usize = if self.show_linenumber {
            self.line_number_printing_width()
        } else {
            0
        };

        if pane_width > extend_mark_space && pane_width - extend_mark_space > lnpw {
            pane_width - extend_mark_space - lnpw
        } else {
            0
        }
    }

    /// Return range of visible lines from current line to buffer line end or bottom of pane.
    pub fn range_of_visible_lines(&self) -> (r: core::ops::Range<usize>)
        ensures
            r.start == self@.visible().0,
            r.end == self@.visible().1,
            r.start <= r.end <= self@.lines.len(),
            r.end - r.start <= self@.pane_height(),
    {
        let pane_height = self.pane_size().1 as usize;
        let buf_height = self.linebuf.len();
        let y = if self.cur_pos.1 as usize <= buf_height {
            self.cur_pos.1 as usize
        } else {
            buf_height
        };

        y..if (buf_height - y) < pane_height {
            buf_height
        } else {
            y + pane_height
        }
    }

    /// Return max width of linebuf range
    fn max_width_of_visible_lines(&self, r: core::ops::Range<usize>) -> (w: u16)
        requires
            r.start <= r.end <= self@.lines.len(),
        ensures
            w == clamp16(max_width(self@.lines, r.start as int, r.end as int) as int),
    {
        let mut max: usize = 0;
        let mut i: usize = r.start;
        while i < r.end
            invariant
                r.start <= i <= r.end <= self.linebuf.len(),
                max == max_width(self@.lines, r.start as int, i as int),
            decreases r.end - i,
        {
            let w = width_of_str(self.linebuf[i].as_str());
            assert(self@.lines[i as int] == self.linebuf@[i as int]@);
            if w > max {
                max = w;
            }
            i = i + 1;
        }
        to_u16(max)
    }

    /// Return the pane printable width
    pub fn pane_printable_width(&self) -> (r: u16)
        ensures
            r == self@.printable_width(),
    {
        let width = self.pane_size().0;
        let lnpw: usize = if self.show_linenumber {
            self.line_number_printing_width()
        } else {
            0
        };
        if width as usize > lnpw {
            (width as usize - lnpw) as u16
        } else {
            0
        }
    }

    /// Return the horizontal offset that is considered pane size and string length
    pub fn limit_right_x(&self, next_x: u64, max_len: u16) -> (r: u16)
        ensures
            r == clamp16(self@.limit_right_x(next_x as int, max_len as int)),
    {
        let margined_len: u64 = max_len as u64 + Self::MARGIN_RIGHT_WIDTH as u64;
        let pane_width: u64 = self.pane_printable_width() as u64;
        let x: u64 = if pane_width >= margined_len {
            0
        } else if next_x <= margined_len - pane_width {
            next_x
        } else {
            margined_len - pane_width
        };
        if x > 0xffff {
            0xffff
        } else {
            x as u16
        }
    }

    // return actual scroll distance
    pub fn scroll_up(&mut self, ss: &ScrollStep) -> (astep: u16)
        ensures
            astep == old(self)@.up_distance(*ss),
            final(self)@ == old(self)@.scroll_up(*ss),
            old(self)@.wf() ==> final(self)@.wf(),
    {
        let step = ss.to_numof_chars(self.pane_size().1);
        let astep = if self.cur_pos.1 as u32 > step {
            step as u16
        } else {
            self.cur_pos.1
        };
        self.cur_pos.1 = self.cur_pos.1 - astep;
        astep
    }

    // return actual scroll distance
    pub fn scroll_down(&mut self, ss: &ScrollStep) -> (astep: u16)
        ensures
            astep == old(self)@.down_distance(*ss),
            final(self)@ == old(self)@.scroll_down(*ss),
            old(self)@.wf() ==> final(self)@.wf(),
    {
        proof {
            crate::pane::laws::lemma_bottom_in_lines(self@);
        }
        let step = ss.to_numof_chars(self.pane_size().1);
        let end_y = self.limit_bottom_y();
        let astep = if end_y as u64 > self.cur_pos.1 as u64 + step as u64 {
            step as u16
        } else if end_y > self.cur_pos.1 {
            end_y - self.cur_pos.1
        } else {
            0
        };
        self.cur_pos.1 = self.cur_pos.1 + astep;
        astep
    }

    // return actual scroll distance
    pub fn scroll_left(&mut self, ss: &ScrollStep) -> (astep: u16)
        ensures
            astep == old(self)@.left_distance(*ss),
            final(self)@ == old(self)@.scroll_left(*ss),
            old(self)@.wf() ==> final(self)@.wf(),
    {
        if self.wraps_line {
            return 0;
        }
        let step = ss.to_numof_chars(self.pane_printable_width());
        let astep = if self.cur_pos.0 as u32 > step {
            step as u16
        } else {
            self.cur_pos.0
        };
        self.cur_pos.0 = self.cur_pos.0 - astep;
        astep
    }

    // return actual scroll distance
    pub fn scroll_right(&mut self, ss: &ScrollStep) -> (astep: u16)
        ensures
            astep == old(self)@.right_distance(*ss),
            final(self)@ == old(self)@.scroll_right(*ss),
            old(self)@.wf() ==> final(self)@.wf(),
    {
        if self.wraps_line {
            return 0;
        }
        let step = ss.to_numof_chars(self.pane_printable_width());
        let max_line_width = self.max_width_of_visible_lines(self.range_of_visible_lines());
        let x = self.limit_right_x(self.cur_pos.0 as u64 + step as u64, max_line_width);
        let astep = if x > self.cur_pos.0 {
            x - self.cur_pos.0
        } else {
            0
        };
        self.cur_pos.0 = x;
        astep
    }

    pub fn goto_top_of_lines(&mut self) -> (r: (u16, u16))
        ensures
            final(self)@ == old(self)@.goto_top_of_lines(),
            r == (final(self)@.x, final(self)@.y),
            final(self)@.wf(),
    {
        self.cur_pos = (0, 0);
        self.cur_pos
    }

    pub fn goto_bottom_of_lines(&mut self) -> (r: (u16, u16))
        ensures
            final(self)@ == old(self)@.goto_bottom_of_lines(),
            r == (final(self)@.x, final(self)@.y),
            final(self)@.wf(),
    {
        proof {
            crate::pane::laws::lemma_bottom_in_lines(self@);
        }
        let y = self.limit_bottom_y();
        self.cur_pos = (0, y);
        self.cur_pos
    }

    /// Go to head of current line.
    pub fn goto_head_of_line(&mut self) -> (r: (u16, u16))
        ensures
            final(self)@ == old(self)@.goto_head_of_line(),
            r == (final(self)@.x, final(self)@.y),
            old(self)@.wf() ==> final(self)@.wf(),
    {
        if !self.wraps_line {
            self.cur_pos.0 = 0;
        }
        self.cur_pos
    }

    /// Go to tail of current line.
    pub fn goto_tail_of_line(&mut self) -> (r: (u16, u16))
        ensures
            final(self)@ == old(self)@.goto_tail_of_line(),
            r == (final(self)@.x, final(self)@.y),
            old(self)@.wf() ==> final(self)@.wf(),
    {
        if !self.wraps_line {
            let max_line_width = self.max_width_of_visible_lines(self.range_of_visible_lines());
            self.cur_pos.0 = self.limit_right_x(max_line_width as u64, max_line_width);
        }
        self.cur_pos
    }

    /// Go to specified absolute line number.
    /// Scroll so that the specified line appears at the top of the pane.
    pub fn goto_absolute_line(&mut self, lineno: u16) -> (r: u16)
        ensures
            final(self)@ == old(self)@.goto_absolute_line(lineno),
            r == final(self)@.y,
            old(self)@.wf() ==> final(self)@.wf(),
    {
        let buf_height = self.linebuf.len();
        self.cur_pos.1 = if buf_height == 0 {
            0
        } else if lineno as usize >= buf_height {
            (buf_height - 1) as u16
        } else {
            lineno
        };
        self.cur_pos.1
    }

    pub fn goto_absolute_horizontal_offset(&mut self, offset: u16) -> (r: u16)
        ensures
            final(self)@ == old(self)@.goto_absolute_horizontal_offset(offset),
            r == final(self)@.x,
            old(self)@.wf() ==> final(self)@.wf(),
    {
        if !self.wraps_line {
            let max_line_width = self.max_width_of_visible_lines(self.range_of_visible_lines());
            self.cur_pos.0 = self.limit_right_x(offset as u64, max_line_width);
        }
        self.cur_pos.0
    }

    /// Set pane height.
    /// Pane height is limited by the actual terminal height.
    /// Return acutually set pane height.
    pub fn set_height(&mut self, n: u16) -> (r: u16)
        ensures
            final(self)@ == old(self)@.set_height(n),
            r == final(self)@.height,
            old(self)@.wf() ==> final(self)@.wf(),
    {
        let max = if self.termsize.1 >= Self::MESSAGE_BAR_HEIGHT {
            self.termsize.1 - Self::MESSAGE_BAR_HEIGHT
        } else {
            0
        };
        self.height = if n == 0 {
            1
        } else if n > max {
            max
        } else {
            n
        };
        self.height
    }

    /// Increment pane height.
    /// Return acutually set pane height.
    pub fn increment_height(&mut self, n: u16) -> (r: u16)
        ensures
            final(self)@ == old(self)@.increment_height(n),
            r == final(self)@.height,
            old(self)@.wf() ==> final(self)@.wf(),
    {
        let height = if self.height as u32 + n as u32 > 0xffff {
            0xffff
        } else {
            self.height + n
        };
        self.set_height(height)
    }

    /// Decrement pane height.
    /// Return acutually set pane height.
    pub fn decrement_height(&mut self, n: u16) -> (r: u16)
        ensures
            final(self)@ == old(self)@.decrement_height(n),
            r == final(self)@.height,
            old(self)@.wf() ==> final(self)@.wf(),
    {
        let height = if self.height > n {
            self.height - n
        } else {
            1
        };
        self.set_height(height)
    }

    /// Set tab width.
    pub fn set_tab_width(&mut self, w: u16)
        ensures
            final(self)@ == (PaneView { tab_width: w as usize, ..old(self)@ }),
    {
        self.tab_width = w as usize;
    }

    /// Set wrap-line option.
    pub fn set_wrap(&mut self, b: bool)
        ensures
            final(self)@ == old(self)@.set_wrap(b),
            old(self)@.wf() ==> final(self)@.wf(),
    {
        self.wraps_line = b;
        if self.wraps_line {
            self.cur_pos.0 = 0;
        }
    }
}

} // verus!
