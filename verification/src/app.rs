//! The dispatch of events.
//!
//! An [`App`] takes the events one by one and tells the pane what to do.
//! There are two modes. In normal mode every command is taken. In follow
//! mode the pane stays at the end of the lines, and only the commands that
//! do not move it are taken. What an event does is [`AppView::step`]: from
//! the state and the event to the state after it and to what is left to do
//! for the caller.

use vstd::prelude::*;
use vstd::string::*;
use crate::event::{text_view, EventView, PeepEvent};
use crate::pane::view::{clamp16, PaneView};
use crate::pane::{texts, Pane, ScrollStep};
use crate::search::{Engine, Search};

verus! {

/// The height of the pane at the start, in rows.
pub const DEFAULT_PANE_HEIGHT: u16 = 10;

/// The tab width at the start.
pub const DEFAULT_TAB_WIDTH: u16 = 4;

/// The message in the status line in follow mode.
pub open spec fn following_message() -> Seq<char> {
    "\x1b[7mwaiting for data... (press 'F' to abort)\x1b[0m"@
}

/// What stands in front of the pattern in the status line in follow mode.
pub open spec fn following_hl_message() -> Seq<char> {
    "\x1b[7mwaiting for data... \x1b[0m:"@
}

/// What follows a pattern in the status line where the searcher refused it.
pub open spec fn rejection_notice() -> Seq<char> {
    " [invalid pattern]"@
}

/// The status line while the pattern `pat` is typed, behind `lead`: a slash
/// and the pattern, and the notice of rejection where the searcher did not
/// take the pattern.
pub open spec fn prompt(lead: Seq<char>, pat: Seq<char>, accepted: bool) -> Seq<char> {
    lead + seq!['/'] + pat + if accepted {
        seq![]
    } else {
        rejection_notice()
    }
}

/// The first line from the index `from` on in which the searcher finds a
/// match, with the byte offset of the match: as far as a `u16` counts the
/// lines.
pub open spec fn found_forward(lines: Seq<Seq<char>>, engine: Engine, from: int) -> Option<
    (u16, u16),
>
    decreases lines.len() - from,
{
    if from < 0 || from >= lines.len() || from > u16::MAX {
        None
    } else {
        match engine.first(lines[from]) {
            Some(m) => Some((clamp16(m.start as int), from as u16)),
            None => found_forward(lines, engine, from + 1),
        }
    }
}

/// The last line up to the index `from` in which the searcher finds a
/// match, with the byte offset of the match.
pub open spec fn found_backward(lines: Seq<Seq<char>>, engine: Engine, from: int) -> Option<
    (u16, u16),
>
    decreases from + 1,
{
    if from < 0 || from >= lines.len() || from > u16::MAX {
        None
    } else {
        match engine.first(lines[from]) {
            Some(m) => Some((clamp16(m.start as int), from as u16)),
            None => found_backward(lines, engine, from - 1),
        }
    }
}

/// The line that follows the line `y`: `y` itself where it is the last.
pub open spec fn line_after(lines: Seq<Seq<char>>, y: u16) -> int {
    if lines.len() > 0 && y == lines.len() - 1 {
        y as int
    } else {
        y + 1
    }
}

/// The line in front of the line `y`: `y` itself where it is the first, and
/// the last line where `y` lies behind the lines.
pub open spec fn line_before(lines: Seq<Seq<char>>, y: u16) -> int {
    let before = if y == 0 {
        0
    } else {
        y - 1
    };
    if lines.len() > 0 && before >= lines.len() {
        lines.len() - 1
    } else {
        before
    }
}

/// The pane with the line of `found` at its top; as it is where nothing was
/// found.
pub open spec fn went_to(pane: PaneView, found: Option<(u16, u16)>) -> PaneView {
    match found {
        Some(pos) => pane.goto_absolute_line(pos.1),
        None => pane,
    }
}

/// What is left to do for the caller after an event.
#[derive(Copy, Clone, Debug, PartialEq, Eq)]
pub enum Action {
    /// Nothing: the next event can come.
    Continue,
    /// The source is to be read, and what was read is to be handed to
    /// `reload_lines` or `reload_chunks`.
    Reload,
    /// The session is over.
    Quit,
}

/// The state of the dispatch, as plain values.
pub struct AppView {
    pub show_linenumber: bool,
    pub nlines: u16,
    pub follow_mode: bool,
    pub tab_width: u16,
    pub wraps_line: bool,
    /// The pattern of the search while it is typed.
    pub typing_word: Option<Seq<char>>,
    /// Whether the last line from the pipe has no end yet.
    pub open_line: bool,
}

impl AppView {
    /// The state at the start: normal mode, no line numbers, no wrapping,
    /// a pane of ten rows and tabs of four columns.
    pub open spec fn initial() -> AppView {
        AppView {
            show_linenumber: false,
            nlines: DEFAULT_PANE_HEIGHT,
            follow_mode: false,
            tab_width: DEFAULT_TAB_WIDTH,
            wraps_line: false,
            typing_word: None,
            open_line: false,
        }
    }

    /// The message of the mode: none in normal mode; in follow mode the
    /// notice that the pager waits, with the pattern where one is typed.
    pub open spec fn default_message(self) -> Option<Seq<char>> {
        if !self.follow_mode {
            None
        } else {
            match self.typing_word {
                Some(tw) => Some(following_hl_message() + seq!['/'] + tw),
                None => Some(following_message()),
            }
        }
    }

    /// The pane at the start of a session: with the lines and the options,
    /// at the bottom in follow mode, and drawn.
    pub open spec fn setup(self, pane: PaneView, lines: Seq<Seq<char>>, engine: Engine) -> PaneView {
        let loaded = PaneView {
            engine,
            show_linenumber: self.show_linenumber,
            tab_width: self.tab_width as usize,
            ..pane.load(lines)
        }.set_wrap(self.wraps_line).set_height(self.nlines);
        let placed = if self.follow_mode {
            loaded.goto_bottom_of_lines()
        } else {
            loaded
        };
        placed.set_message(self.default_message()).refresh()
    }

    /// After the pattern of a search changed to `pat` in normal mode: the
    /// status line shows it, the searcher takes it, and with a pattern that
    /// is not empty the pane goes to the next line with a match from its
    /// top line on, and highlights the matches. Where the searcher refuses
    /// the pattern, the status line says so, and nothing else changes.
    pub open spec fn search_incremental(self, pane: PaneView, pat: Seq<char>) -> (AppView, PaneView) {
        let app = AppView { typing_word: Some(pat), ..self };
        let accepted = pane.engine.accepts(pat);
        let told = pane.set_message(Some(prompt(seq![], pat, accepted)));
        if !accepted {
            (app, told.refresh())
        } else {
            let set = PaneView { engine: pane.engine.with_pattern(pat), ..told };
            let moved = if pat.len() == 0 {
                set
            } else {
                went_to(set, found_forward(set.lines, set.engine, set.y as int))
            };
            (app, PaneView { show_highlight: pat.len() != 0, ..moved }.refresh())
        }
    }

    /// After the pattern of a search changed to `pat` in follow mode: the
    /// status line shows it behind the notice of the mode, the searcher
    /// takes it, and the matches are highlighted where it is not empty; the
    /// pane does not move. Where the searcher refuses the pattern, the
    /// status line says so, and nothing else changes.
    pub open spec fn highlight_incremental(self, pane: PaneView, pat: Seq<char>) -> (
        AppView,
        PaneView,
    ) {
        let app = AppView { typing_word: Some(pat), ..self };
        let accepted = pane.engine.accepts(pat);
        let told = pane.set_message(Some(prompt(following_hl_message(), pat, accepted)));
        if !accepted {
            (app, told.refresh())
        } else {
            (
                app,
                PaneView {
                    engine: pane.engine.with_pattern(pat),
                    show_highlight: pat.len() != 0,
                    ..told
                }.refresh(),
            )
        }
    }

    /// After a search for the next or the last match came to `found`: the
    /// pane goes to the line with the match, if there is one, and
    /// highlights the matches; without a pattern it only ends highlighting.
    pub open spec fn search_again(self, pane: PaneView, found: Option<(u16, u16)>) -> PaneView {
        let moved = if pane.engine.pattern().len() == 0 {
            pane
        } else {
            went_to(pane, found)
        };
        PaneView { show_highlight: pane.engine.pattern().len() != 0, ..moved }.set_message(
            self.default_message(),
        ).refresh()
    }

    /// What an event does that changes an option or the height, ends the
    /// typing of a pattern, or ends the session: the same in both modes.
    pub open spec fn option_step(self, event: EventView, pane: PaneView) -> (
        AppView,
        PaneView,
        Action,
    ) {
        match event {
            EventView::ToggleLineNumberPrinting => (
                AppView { show_linenumber: !self.show_linenumber, ..self },
                PaneView { show_linenumber: !self.show_linenumber, ..pane }.refresh(),
                Action::Continue,
            ),
            EventView::ToggleLineWraps => (
                AppView { wraps_line: !self.wraps_line, ..self },
                pane.set_wrap(!self.wraps_line).refresh(),
                Action::Continue,
            ),
            EventView::IncrementLines(n) => (
                self,
                pane.increment_height(n).refresh(),
                Action::Continue,
            ),
            EventView::DecrementLines(n) => (
                self,
                pane.decrement_height(n).refresh(),
                Action::Continue,
            ),
            EventView::SetNumOfLines(n) => (self, pane.set_height(n).refresh(), Action::Continue),
            EventView::SearchTrigger => (
                AppView { typing_word: None, ..self },
                pane.set_message((AppView { typing_word: None, ..self }).default_message()).refresh(),
                Action::Continue,
            ),
            EventView::Cancel => (
                AppView { typing_word: None, ..self },
                PaneView {
                    show_highlight: false,
                    ..pane.set_message((AppView { typing_word: None, ..self }).default_message())
                }.refresh(),
                Action::Continue,
            ),
            EventView::Quit => (self, pane.quit(), Action::Quit),
            EventView::QuitWithClear => (self, pane.quit_with_clear(), Action::Quit),
            _ => (self, pane, Action::Continue),
        }
    }

    /// What an event does in normal mode.
    pub open spec fn normal_step(self, event: EventView, pane: PaneView) -> (
        AppView,
        PaneView,
        Action,
    ) {
        match event {
            EventView::MoveDown(n) => (
                self,
                pane.scroll_down(ScrollStep::Char(n)).refresh(),
                Action::Continue,
            ),
            EventView::MoveUp(n) => (
                self,
                pane.scroll_up(ScrollStep::Char(n)).refresh(),
                Action::Continue,
            ),
            EventView::MoveLeft(n) => (
                self,
                pane.scroll_left(ScrollStep::Char(n)).refresh(),
                Action::Continue,
            ),
            EventView::MoveRight(n) => (
                self,
                pane.scroll_right(ScrollStep::Char(n)).refresh(),
                Action::Continue,
            ),
            EventView::MoveDownHalfPages(n) => (
                self,
                pane.scroll_down(ScrollStep::HalfPage(n)).refresh(),
                Action::Continue,
            ),
            EventView::MoveUpHalfPages(n) => (
                self,
                pane.scroll_up(ScrollStep::HalfPage(n)).refresh(),
                Action::Continue,
            ),
            EventView::MoveLeftHalfPages(n) => (
                self,
                pane.scroll_left(ScrollStep::HalfPage(n)).refresh(),
                Action::Continue,
            ),
            EventView::MoveRightHalfPages(n) => (
                self,
                pane.scroll_right(ScrollStep::HalfPage(n)).refresh(),
                Action::Continue,
            ),
            EventView::MoveDownPages(n) => (
                self,
                pane.scroll_down(ScrollStep::Page(n)).refresh(),
                Action::Continue,
            ),
            EventView::MoveUpPages(n) => (
                self,
                pane.scroll_up(ScrollStep::Page(n)).refresh(),
                Action::Continue,
            ),
            EventView::MoveToHeadOfLine => (
                self,
                pane.goto_head_of_line().refresh(),
                Action::Continue,
            ),
            EventView::MoveToEndOfLine => (
                self,
                pane.goto_tail_of_line().refresh(),
                Action::Continue,
            ),
            EventView::MoveToTopOfLines => (
                self,
                pane.goto_top_of_lines().refresh(),
                Action::Continue,
            ),
            EventView::MoveToBottomOfLines => (
                self,
                pane.goto_bottom_of_lines().refresh(),
                Action::Continue,
            ),
            EventView::MoveToLineNumber(n) => (
                self,
                pane.goto_absolute_line(n).refresh(),
                Action::Continue,
            ),
            EventView::SearchIncremental(pat) => (
                self.search_incremental(pane, pat).0,
                self.search_incremental(pane, pat).1,
                Action::Continue,
            ),
            EventView::SearchNext => (
                self,
                self.search_again(
                    pane,
                    found_forward(pane.lines, pane.engine, line_after(pane.lines, pane.y)),
                ),
                Action::Continue,
            ),
            EventView::SearchPrev => (
                self,
                self.search_again(
                    pane,
                    found_backward(pane.lines, pane.engine, line_before(pane.lines, pane.y)),
                ),
                Action::Continue,
            ),
            EventView::Message(s) => (self, pane.set_message(s).refresh(), Action::Continue),
            EventView::ToggleLineNumberPrinting
            | EventView::ToggleLineWraps
            | EventView::IncrementLines(_)
            | EventView::DecrementLines(_)
            | EventView::SetNumOfLines(_)
            | EventView::SearchTrigger
            | EventView::Cancel
            | EventView::Quit
            | EventView::QuitWithClear => self.option_step(event, pane),
            EventView::FollowMode => (AppView { follow_mode: true, ..self }, pane, Action::Reload),
            EventView::FileUpdated => (self, pane, Action::Continue),
            EventView::SigInt => (self, pane, Action::Continue),
        }
    }

    /// What an event does in follow mode: the height and the options can
    /// change, a pattern can be typed for highlighting, and the source is
    /// read again when it has grown. The pane is not moved.
    pub open spec fn follow_step(self, event: EventView, pane: PaneView) -> (
        AppView,
        PaneView,
        Action,
    ) {
        match event {
            EventView::SearchIncremental(pat) => (
                self.highlight_incremental(pane, pat).0,
                self.highlight_incremental(pane, pat).1,
                Action::Continue,
            ),
            EventView::ToggleLineNumberPrinting
            | EventView::ToggleLineWraps
            | EventView::IncrementLines(_)
            | EventView::DecrementLines(_)
            | EventView::SetNumOfLines(_)
            | EventView::SearchTrigger
            | EventView::Cancel
            | EventView::Quit
            | EventView::QuitWithClear => self.option_step(event, pane),
            EventView::FileUpdated => (self, pane, Action::Reload),
            EventView::FollowMode => (
                AppView { follow_mode: false, ..self },
                pane.set_message((AppView { follow_mode: false, ..self }).default_message()).refresh(),
                Action::Continue,
            ),
            _ => (self, pane, Action::Continue),
        }
    }

    /// What an event does, in the mode that holds.
    pub open spec fn step(self, event: EventView, pane: PaneView) -> (AppView, PaneView, Action) {
        if self.follow_mode {
            self.follow_step(event, pane)
        } else {
            self.normal_step(event, pane)
        }
    }

    /// The pane after the source was read again: at the bottom, with the
    /// message of the mode, and drawn.
    pub open spec fn reloaded(self, pane: PaneView) -> PaneView {
        pane.goto_bottom_of_lines().set_message(self.default_message()).refresh()
    }
}

/// The index of the character behind the first line feed of `chunk`; the
/// length of `chunk` where it has none.
pub open spec fn piece_len(chunk: Seq<char>) -> nat
    decreases chunk.len(),
{
    if chunk.len() == 0 {
        0
    } else if chunk[0] == '\n' {
        1
    } else {
        1 + piece_len(chunk.drop_first())
    }
}

/// `s` without the end of line at its end: without a line feed, and without
/// the carriage return in front of the line feed.
pub open spec fn chomped(s: Seq<char>) -> Seq<char> {
    if s.len() > 0 && s.last() == '\n' {
        if s.drop_last().len() > 0 && s.drop_last().last() == '\r' {
            s.drop_last().drop_last()
        } else {
            s.drop_last()
        }
    } else {
        s
    }
}

/// Whether `s` ends with a line feed.
pub open spec fn ends_line(s: Seq<char>) -> bool {
    s.len() > 0 && s.last() == '\n'
}

/// The lines after the piece `piece` was read: it goes on the last line
/// where that is open, and is a new line otherwise.
pub open spec fn fed_piece(lines: Seq<Seq<char>>, open: bool, piece: Seq<char>) -> Seq<Seq<char>> {
    if open && lines.len() > 0 {
        lines.drop_last().push(lines.last() + chomped(piece))
    } else {
        lines.push(chomped(piece))
    }
}

/// The lines after `chunk` was read, piece by piece, and whether the last
/// line is open then: whether it has no end yet.
pub open spec fn fed(lines: Seq<Seq<char>>, open: bool, chunk: Seq<char>) -> (Seq<Seq<char>>, bool)
    decreases chunk.len(),
    via fed_decreases
{
    if chunk.len() == 0 {
        (lines, open)
    } else {
        let k = piece_len(chunk) as int;
        let piece = chunk.take(k);
        fed(fed_piece(lines, open, piece), !ends_line(piece), chunk.skip(k))
    }
}

#[via_fn]
proof fn fed_decreases(lines: Seq<Seq<char>>, open: bool, chunk: Seq<char>) {
    if chunk.len() > 0 {
        lemma_piece_len(chunk);
    }
}

/// The lines after the chunks `chunks` were read, one after the other, and
/// whether the last line is open then.
pub open spec fn fed_all(lines: Seq<Seq<char>>, open: bool, chunks: Seq<Seq<char>>) -> (
    Seq<Seq<char>>,
    bool,
)
    decreases chunks.len(),
{
    if chunks.len() == 0 {
        (lines, open)
    } else {
        let first = fed(lines, open, chunks[0]);
        fed_all(first.0, first.1, chunks.drop_first())
    }
}

/// A piece is not empty and not longer than its chunk.
pub proof fn lemma_piece_len(chunk: Seq<char>)
    requires
        chunk.len() > 0,
    ensures
        1 <= piece_len(chunk) <= chunk.len(),
    decreases chunk.len(),
{
    if chunk[0] != '\n' {
        if chunk.len() > 1 {
            lemma_piece_len(chunk.drop_first());
        } else {
            assert(piece_len(chunk.drop_first()) == 0);
        }
    }
}

/// The time to wait for more from the pipe once something came, in
/// milliseconds.
pub const DEFAULT_POLL_TIMEOUT_MS: u64 = 200;

/// What reading from a pipe does after it waited for the pipe.
#[derive(Copy, Clone, Debug, PartialEq, Eq)]
pub enum PipeStep {
    /// Nothing came in time: reading is over for now.
    Stop,
    /// Something came: it is read, and then the pipe is waited for again.
    Read,
    /// Something came, and the other end hung up: it is read, and reading
    /// is over.
    ReadAndStop,
}

/// Reads lines from a pipe, chunk by chunk. A line can be split between two
/// chunks: what comes first is an open line, and what follows goes on it.
pub struct PipeReader {
    end_with_crlf: bool,
}

impl Default for PipeReader {
    fn default() -> (r: Self)
        ensures
            !r.open_line(),
    {
        Self::new()
    }
}

impl PipeReader {
    /// Whether the last line that was read has no end yet.
    pub closed spec fn open_line(&self) -> bool {
        !self.end_with_crlf
    }

    pub fn new() -> (r: Self)
        ensures
            !r.open_line(),
    {
        Self { end_with_crlf: true }
    }

    /// What to do after a wait for the pipe that ended as `ready` says:
    /// `None` after a timeout, else whether the other end hung up.
    pub fn after_watch(ready: Option<bool>) -> (step: PipeStep)
        ensures
            step == (match ready {
                None => PipeStep::Stop,
                Some(hup) => if hup {
                    PipeStep::ReadAndStop
                } else {
                    PipeStep::Read
                },
            }),
    {
        match ready {
            None => PipeStep::Stop,
            Some(true) => PipeStep::ReadAndStop,
            Some(false) => PipeStep::Read,
        }
    }

    /// chomp end of CRFL. Return whethre it was chomped or not.
    pub fn chomp(s: &mut String) -> (r: bool)
        ensures
            r == ends_line(old(s)@),
            final(s)@ == chomped(old(s)@),
    {
        match s.pop() {
            Some(last) => {
                if last == '\n' {
                    match s.pop() {
                        Some(prev) => {
                            if prev != '\r' {
                                s.push(prev);
                                assert(s@ =~= old(s)@.drop_last());
                            }
                        },
                        None => {},
                    }
                    true
                } else {
                    s.push(last);
                    assert(s@ =~= old(s)@);
                    false
                }
            },
            None => false,
        }
    }

    /// Takes the piece `line` into `linebuf`.
    fn take_piece(&mut self, linebuf: &mut Vec<String>, line: String)
        ensures
            texts(final(linebuf)@) == fed_piece(texts(old(linebuf)@), old(self).open_line(), line@),
            final(self).open_line() == !ends_line(line@),
    {
        let ghost piece = line@;
        let mut line = line;
        let is_chomped = PipeReader::chomp(&mut line);
        if !self.end_with_crlf && linebuf.len() > 0 {
            match linebuf.pop() {
                Some(last) => {
                    let mut last = last;
                    last.append(line.as_str());
                    linebuf.push(last);
                },
                None => {},
            }
        } else {
            linebuf.push(line);
        }
        self.end_with_crlf = is_chomped;
        assert(texts(linebuf@) =~= fed_piece(
            texts(old(linebuf)@),
            old(self).open_line(),
            piece,
        ));
    }

    /// Reads the chunk `chunk` into `linebuf`.
    pub fn feed(&mut self, linebuf: &mut Vec<String>, chunk: &str)
        ensures
            (texts(final(linebuf)@), final(self).open_line()) == fed(
                texts(old(linebuf)@),
                old(self).open_line(),
                chunk@,
            ),
    {
        let ghost whole = fed(texts(linebuf@), self.open_line(), chunk@);
        let mut line = String::new();
        assert(chunk@.skip(0) =~= chunk@);
        for c in it: chunk.chars()
            invariant
                it.seq() == chunk@,
                forall|i: int| 0 <= i < line@.len() ==> line@[i] != '\n',
                whole == fed(texts(old(linebuf)@), old(self).open_line(), chunk@),
                fed(texts(linebuf@), self.open_line(), line@ + chunk@.skip(it.index())) == whole,
        {
            let ghost rest = chunk@.skip(it.index());
            let ghost before = line@;
            assert(rest[0] == c);
            assert(rest.drop_first() =~= chunk@.skip(it.index() + 1));
            line.push(c);
            assert(before + rest =~= line@ + rest.drop_first());
            if c == '\n' {
                proof {
                    let all = line@ + rest.drop_first();
                    lemma_piece_at(line@, rest.drop_first());
                    assert(all.take(line@.len() as int) =~= line@);
                    assert(all.skip(line@.len() as int) =~= rest.drop_first());
                }
                let mut piece = String::new();
                std::mem::swap(&mut line, &mut piece);
                self.take_piece(linebuf, piece);
                assert(line@ + rest.drop_first() =~= rest.drop_first());
            }
        }
        proof {
            assert(chunk@.skip(chunk@.len() as int) =~= Seq::<char>::empty());
            assert(line@ + Seq::<char>::empty() =~= line@);
            assert(fed(texts(linebuf@), self.open_line(), line@) == whole);
        }
        if !line.as_str().is_empty() {
            let ghost lines = texts(linebuf@);
            let ghost open = self.open_line();
            let ghost piece = line@;
            proof {
                lemma_piece_whole(piece);
                assert(piece.take(piece.len() as int) =~= piece);
                assert(piece.skip(piece.len() as int) =~= Seq::<char>::empty());
                assert(fed(lines, open, piece) == fed(
                    fed_piece(lines, open, piece),
                    !ends_line(piece),
                    Seq::<char>::empty(),
                ));
            }
            self.take_piece(linebuf, line);
        }
    }
}

/// A text that ends with its only line feed, in front of another text, is
/// the first piece of the two.
pub proof fn lemma_piece_at(line: Seq<char>, rest: Seq<char>)
    requires
        line.len() > 0,
        line.last() == '\n',
        forall|i: int| 0 <= i < line.len() - 1 ==> line[i] != '\n',
    ensures
        piece_len(line + rest) == line.len(),
    decreases line.len(),
{
    let all = line + rest;
    if line.len() > 1 {
        assert(all.drop_first() =~= line.drop_first() + rest);
        lemma_piece_at(line.drop_first(), rest);
    }
}

/// A text without a line feed is one piece.
pub proof fn lemma_piece_whole(line: Seq<char>)
    requires
        forall|i: int| 0 <= i < line.len() ==> line[i] != '\n',
    ensures
        piece_len(line) == line.len(),
    decreases line.len(),
{
    if line.len() > 0 {
        lemma_piece_whole(line.drop_first());
    }
}

/// No event in normal mode brings the pane behind its lines, and none gives
/// it a horizontal offset while lines are wrapped.
pub proof fn lemma_normal_step_keeps_position_valid(app: AppView, event: EventView, pane: PaneView)
    requires
        pane.wf(),
    ensures
        app.normal_step(event, pane).1.wf(),
{
    let after = app.normal_step(event, pane).1;
    match event {
        EventView::MoveDown(n) | EventView::MoveUp(n) | EventView::MoveLeft(n) | EventView::MoveRight(
            n,
        ) => {
            let ss = ScrollStep::Char(n);
            crate::pane::laws::lemma_commands_keep_position_valid(pane, ss, 0, true);
            crate::pane::laws::lemma_refresh_keeps(pane.scroll_down(ss));
            crate::pane::laws::lemma_refresh_keeps(pane.scroll_up(ss));
            crate::pane::laws::lemma_refresh_keeps(pane.scroll_left(ss));
            crate::pane::laws::lemma_refresh_keeps(pane.scroll_right(ss));
        },
        EventView::MoveDownHalfPages(n) | EventView::MoveUpHalfPages(n) | EventView::MoveLeftHalfPages(
            n,
        ) | EventView::MoveRightHalfPages(n) => {
            let ss = ScrollStep::HalfPage(n);
            crate::pane::laws::lemma_commands_keep_position_valid(pane, ss, 0, true);
            crate::pane::laws::lemma_refresh_keeps(pane.scroll_down(ss));
            crate::pane::laws::lemma_refresh_keeps(pane.scroll_up(ss));
            crate::pane::laws::lemma_refresh_keeps(pane.scroll_left(ss));
            crate::pane::laws::lemma_refresh_keeps(pane.scroll_right(ss));
        },
        EventView::MoveDownPages(n) | EventView::MoveUpPages(n) => {
            let ss = ScrollStep::Page(n);
            crate::pane::laws::lemma_commands_keep_position_valid(pane, ss, 0, true);
            crate::pane::laws::lemma_refresh_keeps(pane.scroll_down(ss));
            crate::pane::laws::lemma_refresh_keeps(pane.scroll_up(ss));
        },
        EventView::MoveToHeadOfLine | EventView::MoveToEndOfLine | EventView::MoveToTopOfLines
        | EventView::MoveToBottomOfLines => {
            crate::pane::laws::lemma_commands_keep_position_valid(pane, ScrollStep::Char(0), 0, true);
            crate::pane::laws::lemma_refresh_keeps(pane.goto_head_of_line());
            crate::pane::laws::lemma_refresh_keeps(pane.goto_tail_of_line());
            crate::pane::laws::lemma_refresh_keeps(pane.goto_top_of_lines());
            crate::pane::laws::lemma_refresh_keeps(pane.goto_bottom_of_lines());
        },
        EventView::MoveToLineNumber(n) | EventView::IncrementLines(n) | EventView::DecrementLines(
            n,
        ) | EventView::SetNumOfLines(n) => {
            crate::pane::laws::lemma_commands_keep_position_valid(pane, ScrollStep::Char(0), n, true);
            crate::pane::laws::lemma_refresh_keeps(pane.goto_absolute_line(n));
            crate::pane::laws::lemma_refresh_keeps(pane.increment_height(n));
            crate::pane::laws::lemma_refresh_keeps(pane.decrement_height(n));
            crate::pane::laws::lemma_refresh_keeps(pane.set_height(n));
        },
        EventView::ToggleLineNumberPrinting => {
            crate::pane::laws::lemma_refresh_keeps(
                PaneView { show_linenumber: !app.show_linenumber, ..pane },
            );
        },
        EventView::ToggleLineWraps => {
            crate::pane::laws::lemma_refresh_keeps(pane.set_wrap(!app.wraps_line));
        },
        EventView::SearchIncremental(pat) => {
            let told = pane.set_message(Some(prompt(seq![], pat, pane.engine.accepts(pat))));
            let set = PaneView { engine: pane.engine.with_pattern(pat), ..told };
            let moved = if pat.len() == 0 {
                set
            } else {
                went_to(set, found_forward(set.lines, set.engine, set.y as int))
            };
            assert(moved.wf());
            crate::pane::laws::lemma_refresh_keeps(told);
            crate::pane::laws::lemma_refresh_keeps(
                PaneView { show_highlight: pat.len() != 0, ..moved },
            );
        },
        EventView::SearchTrigger => {
            crate::pane::laws::lemma_refresh_keeps(
                pane.set_message((AppView { typing_word: None, ..app }).default_message()),
            );
        },
        EventView::SearchNext => {
            let found = found_forward(pane.lines, pane.engine, line_after(pane.lines, pane.y));
            lemma_search_again_keeps_position_valid(app, pane, found);
        },
        EventView::SearchPrev => {
            let found = found_backward(pane.lines, pane.engine, line_before(pane.lines, pane.y));
            lemma_search_again_keeps_position_valid(app, pane, found);
        },
        EventView::Message(s) => {
            crate::pane::laws::lemma_refresh_keeps(pane.set_message(s));
        },
        EventView::Cancel => {
            crate::pane::laws::lemma_refresh_keeps(
                PaneView {
                    show_highlight: false,
                    ..pane.set_message((AppView { typing_word: None, ..app }).default_message())
                },
            );
        },
        _ => {},
    }
}

/// A search for the next or the last match leaves the pane in its lines.
pub proof fn lemma_search_again_keeps_position_valid(
    app: AppView,
    pane: PaneView,
    found: Option<(u16, u16)>,
)
    requires
        pane.wf(),
    ensures
        app.search_again(pane, found).wf(),
{
    let moved = if pane.engine.pattern().len() == 0 {
        pane
    } else {
        went_to(pane, found)
    };
    assert(moved.wf());
    crate::pane::laws::lemma_refresh_keeps(
        PaneView { show_highlight: pane.engine.pattern().len() != 0, ..moved }.set_message(
            app.default_message(),
        ),
    );
}

/// No event in follow mode moves the pane, and none takes lines away.
pub proof fn lemma_follow_step_keeps_position(app: AppView, event: EventView, pane: PaneView)
    ensures
        app.follow_step(event, pane).1.y == pane.y,
        app.follow_step(event, pane).1.lines == pane.lines,
        !(event is ToggleLineWraps) ==> app.follow_step(event, pane).1.x == pane.x,
        pane.wf() ==> app.follow_step(event, pane).1.wf(),
{
    match event {
        EventView::ToggleLineNumberPrinting => {
            crate::pane::laws::lemma_refresh_keeps(
                PaneView { show_linenumber: !app.show_linenumber, ..pane },
            );
        },
        EventView::ToggleLineWraps => {
            crate::pane::laws::lemma_refresh_keeps(pane.set_wrap(!app.wraps_line));
        },
        EventView::IncrementLines(n) => {
            crate::pane::laws::lemma_refresh_keeps(pane.increment_height(n));
        },
        EventView::DecrementLines(n) => {
            crate::pane::laws::lemma_refresh_keeps(pane.decrement_height(n));
        },
        EventView::SetNumOfLines(n) => {
            crate::pane::laws::lemma_refresh_keeps(pane.set_height(n));
        },
        EventView::SearchIncremental(pat) => {
            let told = pane.set_message(
                Some(prompt(following_hl_message(), pat, pane.engine.accepts(pat))),
            );
            crate::pane::laws::lemma_refresh_keeps(told);
            crate::pane::laws::lemma_refresh_keeps(
                PaneView {
                    engine: pane.engine.with_pattern(pat),
                    show_highlight: pat.len() != 0,
                    ..told
                },
            );
        },
        EventView::SearchTrigger => {
            crate::pane::laws::lemma_refresh_keeps(
                pane.set_message((AppView { typing_word: None, ..app }).default_message()),
            );
        },
        EventView::Cancel => {
            crate::pane::laws::lemma_refresh_keeps(
                PaneView {
                    show_highlight: false,
                    ..pane.set_message((AppView { typing_word: None, ..app }).default_message())
                },
            );
        },
        EventView::FollowMode => {
            crate::pane::laws::lemma_refresh_keeps(
                pane.set_message((AppView { follow_mode: false, ..app }).default_message()),
            );
        },
        _ => {},
    }
}

/// No event brings the pane behind its lines, and none gives it a
/// horizontal offset while lines are wrapped.
pub proof fn lemma_step_keeps_position_valid(app: AppView, event: EventView, pane: PaneView)
    requires
        pane.wf(),
    ensures
        app.step(event, pane).1.wf(),
{
    lemma_normal_step_keeps_position_valid(app, event, pane);
    lemma_follow_step_keeps_position(app, event, pane);
}

/// After the source was read again the pane stands at the bottom of its
/// lines.
pub proof fn lemma_reloaded_at_bottom(app: AppView, pane: PaneView)
    ensures
        app.reloaded(pane).y == pane.bottom_y(),
        app.reloaded(pane).x == 0,
        app.reloaded(pane).wf(),
{
    reveal(PaneView::refresh);
    crate::pane::laws::lemma_bottom_in_lines(pane);
}

/// Reading never takes lines away.
pub proof fn lemma_fed_grows(lines: Seq<Seq<char>>, open: bool, chunk: Seq<char>)
    ensures
        fed(lines, open, chunk).0.len() >= lines.len(),
    decreases chunk.len(),
{
    if chunk.len() > 0 {
        lemma_piece_len(chunk);
        let k = piece_len(chunk) as int;
        let piece = chunk.take(k);
        lemma_fed_grows(fed_piece(lines, open, piece), !ends_line(piece), chunk.skip(k));
    }
}

/// Whether `a` is the beginning of `b`.
pub open spec fn begins<T>(a: Seq<T>, b: Seq<T>) -> bool {
    a.len() <= b.len() && b.take(a.len() as int) == a
}

/// Reading leaves the lines that are complete as they are and where they
/// are. Only a last line that is open can change, and it can only grow.
pub proof fn lemma_fed_keeps_lines(lines: Seq<Seq<char>>, open: bool, chunk: Seq<char>)
    ensures
        ({
            let after = fed(lines, open, chunk).0;
            &&& after.len() >= lines.len()
            &&& forall|i: int| 0 <= i < lines.len() - 1 ==> #[trigger] after[i] == lines[i]
            &&& lines.len() > 0 ==> begins(lines.last(), after[lines.len() - 1])
            &&& (!open && lines.len() > 0) ==> after[lines.len() - 1] == lines.last()
        }),
    decreases chunk.len(),
{
    if chunk.len() > 0 {
        lemma_piece_len(chunk);
        let k = piece_len(chunk) as int;
        let piece = chunk.take(k);
        let next = fed_piece(lines, open, piece);
        let after = fed(lines, open, chunk).0;
        lemma_fed_keeps_lines(next, !ends_line(piece), chunk.skip(k));
        lemma_fed_grows(next, !ends_line(piece), chunk.skip(k));
        if lines.len() > 0 {
            let last = lines.len() - 1;
            if open {
                let grown = lines.last() + chomped(piece);
                assert(next[last] == grown);
                assert(grown.take(lines.last().len() as int) =~= lines.last());
                assert(begins(grown, after[last]));
                assert(after[last].take(grown.len() as int).take(lines.last().len() as int)
                    =~= after[last].take(lines.last().len() as int));
            } else {
                assert(next[last] == lines.last());
                assert(after[last] == lines.last());
                assert(lines.last().take(lines.last().len() as int) =~= lines.last());
            }
            assert forall|i: int| 0 <= i < lines.len() - 1 implies #[trigger] after[i]
                == lines[i] by {
                assert(next[i] == lines[i]);
            }
        }
    } else if lines.len() > 0 {
        assert(lines.last().take(lines.last().len() as int) =~= lines.last());
    }
}

/// The status line while a pattern is typed.
fn prompt_message(lead: &str, pat: &str, accepted: bool) -> (msg: String)
    ensures
        msg@ == prompt(lead@, pat@, accepted),
{
    let mut msg = String::from_str(lead);
    msg.push('/');
    msg.append(pat);
    if !accepted {
        msg.append(" [invalid pattern]");
    }
    assert(msg@ =~= prompt(lead@, pat@, accepted));
    msg
}

/// The dispatch of events: the options, the mode, and the pattern of the
/// search while it is typed.
pub struct App {
    pub show_linenumber: bool,
    pub nlines: u16,
    pub follow_mode: bool,
    pub tab_width: u16,
    pub wraps_line: bool,
    typing_word: Option<String>,
    pipereader: PipeReader,
}

impl View for App {
    type V = AppView;

    closed spec fn view(&self) -> AppView {
        AppView {
            show_linenumber: self.show_linenumber,
            nlines: self.nlines,
            follow_mode: self.follow_mode,
            tab_width: self.tab_width,
            wraps_line: self.wraps_line,
            typing_word: text_view(self.typing_word),
            open_line: self.pipereader.open_line(),
        }
    }
}

impl Default for App {
    fn default() -> (app: Self)
        ensures
            app@ == AppView::initial(),
    {
        Self::new()
    }
}

impl App {
    /// The dispatch at the start: normal mode, no line numbers, no
    /// wrapping.
    pub fn new() -> (app: Self)
        ensures
            app@ == AppView::initial(),
    {
        App {
            show_linenumber: false,
            nlines: DEFAULT_PANE_HEIGHT,
            follow_mode: false,
            tab_width: DEFAULT_TAB_WIDTH,
            wraps_line: false,
            typing_word: None,
            pipereader: PipeReader::new(),
        }
    }

    /// Sets the pane up for the session and draws it: with the lines
    /// `lines`, the searcher `searcher` and the options.
    pub fn setup(&self, pane: &mut Pane, lines: Vec<String>, searcher: crate::search::Searcher)
        ensures
            final(pane)@ == self@.setup(old(pane)@, texts(lines@), searcher.engine()),
    {
        pane.load(lines);
        pane.set_highlight_searcher(searcher);
        pane.show_line_number(self.show_linenumber);
        pane.set_tab_width(self.tab_width);
        pane.set_wrap(self.wraps_line);
        pane.set_height(self.nlines);
        if self.follow_mode {
            pane.goto_bottom_of_lines();
        }
        pane.set_message(self.mode_default_message());
        pane.refresh();
    }

    /// Reads the chunk `chunk` from a pipe into a buffer of lines.
    pub fn read_chunk(&mut self, linebuf: &mut Vec<String>, chunk: &str)
        ensures
            texts(final(linebuf)@) == fed(texts(old(linebuf)@), old(self)@.open_line, chunk@).0,
            final(self)@ == (AppView {
                open_line: fed(texts(old(linebuf)@), old(self)@.open_line, chunk@).1,
                ..old(self)@
            }),
    {
        self.pipereader.feed(linebuf, chunk);
    }

    /// Takes the lines that were read from the source since the last time,
    /// and shows the end of the buffer.
    pub fn reload_lines(&mut self, pane: &mut Pane, lines: Vec<String>)
        ensures
            final(self)@ == old(self)@,
            final(pane)@ == old(self)@.reloaded(old(pane)@.append(texts(lines@))),
    {
        pane.append_lines(lines);
        self.show_bottom(pane);
    }

    /// Takes the chunks that were read from the pipe since the last time,
    /// one after the other, and shows the end of the buffer.
    pub fn reload_chunks(&mut self, pane: &mut Pane, chunks: &Vec<String>)
        ensures
            final(self)@ == (AppView {
                open_line: fed_all(old(pane)@.lines, old(self)@.open_line, texts(chunks@)).1,
                ..old(self)@
            }),
            final(pane)@ == old(self)@.reloaded(
                PaneView {
                    lines: fed_all(old(pane)@.lines, old(self)@.open_line, texts(chunks@)).0,
                    ..old(pane)@
                },
            ),
    {
        let ghost all = texts(chunks@);
        let ghost whole = fed_all(pane@.lines, self@.open_line, all);
        let mut i: usize = 0;
        assert(all.skip(0) =~= all);
        while i < chunks.len()
            invariant
                i <= chunks.len(),
                all == texts(chunks@),
                self@ == (AppView { open_line: self@.open_line, ..old(self)@ }),
                pane@ == (PaneView { lines: pane@.lines, ..old(pane)@ }),
                fed_all(pane@.lines, self@.open_line, all.skip(i as int)) == whole,
            decreases chunks.len() - i,
        {
            assert(all.skip(i as int)[0] == chunks@[i as int]@);
            assert(all.skip(i as int).drop_first() =~= all.skip(i + 1));
            pane.feed(&mut self.pipereader, chunks[i].as_str());
            i = i + 1;
        }
        self.show_bottom(pane);
    }

    /// Shows the end of the buffer, with the message of the mode.
    fn show_bottom(&self, pane: &mut Pane)
        ensures
            final(pane)@ == old(pane)@.goto_bottom_of_lines().set_message(
                self@.default_message(),
            ).refresh(),
    {
        pane.goto_bottom_of_lines();
        pane.set_message(self.mode_default_message());
        pane.refresh();
    }

    /// The message of the mode.
    pub fn mode_default_message(&self) -> (msg: Option<String>)
        ensures
            text_view(msg) == self@.default_message(),
    {
        if !self.follow_mode {
            // normal mode
            None
        } else {
            match &self.typing_word {
                Some(tw) => {
                    // follow mode + highlighting
                    let mut msg = String::from_str("\x1b[7mwaiting for data... \x1b[0m:");
                    msg.push('/');
                    msg.append(tw.as_str());
                    assert(msg@ =~= following_hl_message() + seq!['/'] + tw@);
                    Some(msg)
                },
                None => {
                    // follow mode
                    Some(String::from_str("\x1b[7mwaiting for data... (press 'F' to abort)\x1b[0m"))
                },
            }
        }
    }

    /// The first line from the index `from` on with a match.
    fn search_from(&self, pane: &Pane, from: usize) -> (r: Option<(u16, u16)>)
        ensures
            r == found_forward(pane@.lines, pane@.engine, from as int),
    {
        let lines = pane.lines();
        let searcher = pane.searcher();
        let mut j: usize = from;
        while j < lines.len() && j <= 0xffff
            invariant
                texts(lines@) == pane@.lines,
                searcher.engine() == pane@.engine,
                found_forward(pane@.lines, pane@.engine, j as int) == found_forward(
                    pane@.lines,
                    pane@.engine,
                    from as int,
                ),
            decreases lines.len() - j,
        {
            assert(pane@.lines[j as int] == lines@[j as int]@);
            match searcher.find(lines[j].as_str()) {
                Some(m) => {
                    return Some((crate::pane::to_u16(m.start()), j as u16));
                },
                None => {},
            }
            j = j + 1;
        }
        None
    }

    /// The last line up to the index `from` with a match.
    fn search_back_from(&self, pane: &Pane, from: usize) -> (r: Option<(u16, u16)>)
        ensures
            r == found_backward(pane@.lines, pane@.engine, from as int),
    {
        let lines = pane.lines();
        let searcher = pane.searcher();
        if from >= lines.len() || from > 0xffff {
            return None;
        }
        let mut i: usize = from + 1;
        while i > 0
            invariant
                i <= from + 1,
                from < lines.len(),
                from <= 0xffff,
                texts(lines@) == pane@.lines,
                searcher.engine() == pane@.engine,
                found_backward(pane@.lines, pane@.engine, i - 1) == found_backward(
                    pane@.lines,
                    pane@.engine,
                    from as int,
                ),
            decreases i,
        {
            let j = i - 1;
            assert(pane@.lines[j as int] == lines@[j as int]@);
            match searcher.find(lines[j].as_str()) {
                Some(m) => {
                    return Some((crate::pane::to_u16(m.start()), j as u16));
                },
                None => {},
            }
            i = i - 1;
        }
        None
    }

    /// The first line from the line `pos.1` on in which the searcher of the
    /// pane finds a match, with the byte offset of the match.
    pub fn search(&self, pane: &Pane, pos: (u16, u16)) -> (r: Option<(u16, u16)>)
        ensures
            r == found_forward(pane@.lines, pane@.engine, pos.1 as int),
    {
        self.search_from(pane, pos.1 as usize)
    }

    /// The last line up to the line `pos.1` in which the searcher of the
    /// pane finds a match, with the byte offset of the match.
    pub fn search_rev(&self, pane: &Pane, pos: (u16, u16)) -> (r: Option<(u16, u16)>)
        ensures
            r == found_backward(pane@.lines, pane@.engine, pos.1 as int),
    {
        self.search_back_from(pane, pos.1 as usize)
    }

    /// Goes to the line of `found`, if there is one.
    fn go_to(pane: &mut Pane, found: Option<(u16, u16)>)
        ensures
            final(pane)@ == went_to(old(pane)@, found),
    {
        match found {
            Some(pos) => {
                pane.goto_absolute_line(pos.1);
            },
            None => {},
        }
    }

    /// The pattern of the search changed to `s` in normal mode.
    fn search_incremental(&mut self, pane: &mut Pane, s: &String)
        ensures
            (final(self)@, final(pane)@) == old(self)@.search_incremental(old(pane)@, s@),
    {
        self.typing_word = Some(s.clone());
        let accepted = pane.set_pattern(s.as_str()).is_ok();
        pane.set_message(Some(prompt_message("", s.as_str(), accepted)));
        proof {
            reveal_strlit("");
            assert(""@ =~= Seq::<char>::empty());
        }
        if accepted {
            if s.as_str().is_empty() {
                pane.show_highlight(false);
            } else {
                let found = self.search(pane, pane.position());
                App::go_to(pane, found);
                pane.show_highlight(true);
            }
        }
        pane.refresh();
    }

    /// A search for the next or the last match came to `found`.
    fn search_again(&self, pane: &mut Pane, found: Option<(u16, u16)>)
        ensures
            final(pane)@ == self@.search_again(old(pane)@, found),
    {
        if pane.searcher().as_str().is_empty() {
            pane.show_highlight(false);
        } else {
            App::go_to(pane, found);
            pane.show_highlight(true);
        }
        pane.set_message(self.mode_default_message());
        pane.refresh();
    }

    /// Scrolls by `ss` in the direction of `event` and draws the pane.
    fn handle_motion(&mut self, event: &PeepEvent, pane: &mut Pane) -> (r: Action)
        requires
            event@ is MoveDown || event@ is MoveUp || event@ is MoveLeft || event@ is MoveRight
                || event@ is MoveDownHalfPages || event@ is MoveUpHalfPages
                || event@ is MoveLeftHalfPages || event@ is MoveRightHalfPages
                || event@ is MoveDownPages || event@ is MoveUpPages || event@ is MoveToHeadOfLine
                || event@ is MoveToEndOfLine || event@ is MoveToTopOfLines
                || event@ is MoveToBottomOfLines || event@ is MoveToLineNumber,
        ensures
            (final(self)@, final(pane)@, r) == old(self)@.normal_step(event@, old(pane)@),
    {
        match event {
            PeepEvent::MoveDown(n) => {
                pane.scroll_down(&ScrollStep::Char(*n));
            },
            PeepEvent::MoveUp(n) => {
                pane.scroll_up(&ScrollStep::Char(*n));
            },
            PeepEvent::MoveLeft(n) => {
                pane.scroll_left(&ScrollStep::Char(*n));
            },
            PeepEvent::MoveRight(n) => {
                pane.scroll_right(&ScrollStep::Char(*n));
            },
            PeepEvent::MoveDownHalfPages(n) => {
                pane.scroll_down(&ScrollStep::HalfPage(*n));
            },
            PeepEvent::MoveUpHalfPages(n) => {
                pane.scroll_up(&ScrollStep::HalfPage(*n));
            },
            PeepEvent::MoveLeftHalfPages(n) => {
                pane.scroll_left(&ScrollStep::HalfPage(*n));
            },
            PeepEvent::MoveRightHalfPages(n) => {
                pane.scroll_right(&ScrollStep::HalfPage(*n));
            },
            PeepEvent::MoveDownPages(n) => {
                pane.scroll_down(&ScrollStep::Page(*n));
            },
            PeepEvent::MoveUpPages(n) => {
                pane.scroll_up(&ScrollStep::Page(*n));
            },
            PeepEvent::MoveToHeadOfLine => {
                pane.goto_head_of_line();
            },
            PeepEvent::MoveToEndOfLine => {
                pane.goto_tail_of_line();
            },
            PeepEvent::MoveToTopOfLines => {
                pane.goto_top_of_lines();
            },
            PeepEvent::MoveToBottomOfLines => {
                pane.goto_bottom_of_lines();
            },
            PeepEvent::MoveToLineNumber(n) => {
                pane.goto_absolute_line(*n);
            },
            _ => {},
        }
        pane.refresh();
        Action::Continue
    }

    /// Takes an event that changes an option or the height, ends the typing
    /// of a pattern, or ends the session.
    fn handle_option(&mut self, event: &PeepEvent, pane: &mut Pane) -> (r: Action)
        ensures
            (final(self)@, final(pane)@, r) == old(self)@.option_step(event@, old(pane)@),
    {
        match event {
            PeepEvent::ToggleLineNumberPrinting => {
                self.show_linenumber = !self.show_linenumber;
                pane.show_line_number(self.show_linenumber);
                pane.refresh();
                Action::Continue
            },
            PeepEvent::ToggleLineWraps => {
                self.wraps_line = !self.wraps_line;
                pane.set_wrap(self.wraps_line);
                pane.refresh();
                Action::Continue
            },
            PeepEvent::IncrementLines(n) => {
                pane.increment_height(*n);
                pane.refresh();
                Action::Continue
            },
            PeepEvent::DecrementLines(n) => {
                pane.decrement_height(*n);
                pane.refresh();
                Action::Continue
            },
            PeepEvent::SetNumOfLines(n) => {
                pane.set_height(*n);
                pane.refresh();
                Action::Continue
            },
            PeepEvent::SearchTrigger => {
                self.typing_word = None;
                pane.set_message(self.mode_default_message());
                pane.refresh();
                Action::Continue
            },
            PeepEvent::Cancel => {
                self.typing_word = None;
                pane.set_message(self.mode_default_message());
                pane.show_highlight(false);
                pane.refresh();
                Action::Continue
            },
            PeepEvent::Quit => {
                pane.quit();
                Action::Quit
            },
            PeepEvent::QuitWithClear => {
                pane.quit_with_clear();
                Action::Quit
            },
            _ => Action::Continue,
        }
    }

    /// Takes an event in normal mode.
    pub fn handle_normal(&mut self, event: &PeepEvent, pane: &mut Pane) -> (r: Action)
        ensures
            (final(self)@, final(pane)@, r) == old(self)@.normal_step(event@, old(pane)@),
    {
        match event {
            PeepEvent::MoveDown(_)
            | PeepEvent::MoveUp(_)
            | PeepEvent::MoveLeft(_)
            | PeepEvent::MoveRight(_)
            | PeepEvent::MoveDownHalfPages(_)
            | PeepEvent::MoveUpHalfPages(_)
            | PeepEvent::MoveLeftHalfPages(_)
            | PeepEvent::MoveRightHalfPages(_)
            | PeepEvent::MoveDownPages(_)
            | PeepEvent::MoveUpPages(_)
            | PeepEvent::MoveToHeadOfLine
            | PeepEvent::MoveToEndOfLine
            | PeepEvent::MoveToTopOfLines
            | PeepEvent::MoveToBottomOfLines
            | PeepEvent::MoveToLineNumber(_) => self.handle_motion(event, pane),
            PeepEvent::ToggleLineNumberPrinting
            | PeepEvent::ToggleLineWraps
            | PeepEvent::IncrementLines(_)
            | PeepEvent::DecrementLines(_)
            | PeepEvent::SetNumOfLines(_)
            | PeepEvent::SearchTrigger
            | PeepEvent::Cancel
            | PeepEvent::Quit
            | PeepEvent::QuitWithClear => self.handle_option(event, pane),
            PeepEvent::SearchIncremental(s) => {
                self.search_incremental(pane, s);
                Action::Continue
            },
            PeepEvent::SearchNext => {
                let cur_pos = pane.position();
                let len = pane.lines().len();
                let next: usize = if len > 0 && cur_pos.1 as usize == len - 1 {
                    cur_pos.1 as usize
                } else {
                    cur_pos.1 as usize + 1
                };
                let found = self.search_from(pane, next);
                self.search_again(pane, found);
                Action::Continue
            },
            PeepEvent::SearchPrev => {
                let cur_pos = pane.position();
                let len = pane.lines().len();
                let before: usize = if cur_pos.1 == 0 {
                    0
                } else {
                    cur_pos.1 as usize - 1
                };
                let from: usize = if len > 0 && before >= len {
                    len - 1
                } else {
                    before
                };
                let found = self.search_back_from(pane, from);
                self.search_again(pane, found);
                Action::Continue
            },
            PeepEvent::Message(s) => {
                let msg = match s {
                    Some(m) => Some(m.clone()),
                    None => None,
                };
                pane.set_message(msg);
                pane.refresh();
                Action::Continue
            },
            PeepEvent::FollowMode => {
                // Enter follow mode
                self.follow_mode = true;
                Action::Reload
            },
            PeepEvent::FileUpdated => Action::Continue,
            PeepEvent::SigInt => Action::Continue,
        }
    }

    /// Takes an event in follow mode.
    pub fn handle_follow(&mut self, event: &PeepEvent, pane: &mut Pane) -> (r: Action)
        ensures
            (final(self)@, final(pane)@, r) == old(self)@.follow_step(event@, old(pane)@),
    {
        match event {
            PeepEvent::ToggleLineNumberPrinting
            | PeepEvent::ToggleLineWraps
            | PeepEvent::IncrementLines(_)
            | PeepEvent::DecrementLines(_)
            | PeepEvent::SetNumOfLines(_)
            | PeepEvent::SearchTrigger
            | PeepEvent::Cancel
            | PeepEvent::Quit
            | PeepEvent::QuitWithClear => self.handle_option(event, pane),
            PeepEvent::SearchIncremental(s) => {
                self.typing_word = Some(s.clone());
                let accepted = pane.set_pattern(s.as_str()).is_ok();
                pane.set_message(
                    Some(
                        prompt_message(
                            "\x1b[7mwaiting for data... \x1b[0m:",
                            s.as_str(),
                            accepted,
                        ),
                    ),
                );
                if accepted {
                    pane.show_highlight(!s.as_str().is_empty());
                }
                pane.refresh();
                Action::Continue
            },
            PeepEvent::FileUpdated => Action::Reload,
            PeepEvent::FollowMode => {
                // Leave follow mode
                self.follow_mode = false;
                pane.set_message(self.mode_default_message());
                pane.refresh();
                Action::Continue
            },
            _ => Action::Continue,
        }
    }

    /// Takes an event, in the mode that holds.
    pub fn dispatch(&mut self, event: &PeepEvent, pane: &mut Pane) -> (r: Action)
        ensures
            (final(self)@, final(pane)@, r) == old(self)@.step(event@, old(pane)@),
    {
        if !self.follow_mode {
            self.handle_normal(event, pane)
        } else {
            self.handle_follow(event, pane)
        }
    }
}

} // verus!
