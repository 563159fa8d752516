//! The events that drive the pager.

use vstd::prelude::*;

verus! {

/// An event: a command from the keyboard, or a notice from outside.
#[derive(Clone, Debug, PartialEq)]
pub enum PeepEvent {
    /// Scroll down by a number of lines.
    MoveDown(u16),
    /// Scroll up by a number of lines.
    MoveUp(u16),
    /// Scroll left by a number of columns.
    MoveLeft(u16),
    /// Scroll right by a number of columns.
    MoveRight(u16),
    /// Scroll down by a number of half pages.
    MoveDownHalfPages(u16),
    /// Scroll up by a number of half pages.
    MoveUpHalfPages(u16),
    /// Scroll left by a number of half pages.
    MoveLeftHalfPages(u16),
    /// Scroll right by a number of half pages.
    MoveRightHalfPages(u16),
    /// Scroll down by a number of pages.
    MoveDownPages(u16),
    /// Scroll up by a number of pages.
    MoveUpPages(u16),
    /// Go to the first column.
    MoveToHeadOfLine,
    /// Go to the end of the longest visible line.
    MoveToEndOfLine,
    /// Go to the first line.
    MoveToTopOfLines,
    /// Go to the last page.
    MoveToBottomOfLines,
    /// Go to the line with the given index, counted from zero.
    MoveToLineNumber(u16),
    /// Show or hide the line numbers.
    ToggleLineNumberPrinting,
    /// Wrap long lines, or cut them.
    ToggleLineWraps,
    /// Make the pane higher by a number of rows.
    IncrementLines(u16),
    /// Make the pane lower by a number of rows.
    DecrementLines(u16),
    /// Set the height of the pane.
    SetNumOfLines(u16),
    /// The pattern of a search, as far as it is typed.
    SearchIncremental(String),
    /// The pattern of a search is complete.
    SearchTrigger,
    /// Go to the next match.
    SearchNext,
    /// Go to the match before.
    SearchPrev,
    /// Show a message in the status line, or clear it.
    Message(Option<String>),
    /// Give up what was begun.
    Cancel,
    /// Leave, and let the last page stand.
    Quit,
    /// Leave, and clear the pane.
    QuitWithClear,
    /// Enter or leave follow mode.
    FollowMode,
    /// The source has grown.
    FileUpdated,
    /// An interrupt came in.
    SigInt,
}

/// What an event says: the event with its texts as sequences of characters.
pub enum EventView {
    MoveDown(u16),
    MoveUp(u16),
    MoveLeft(u16),
    MoveRight(u16),
    MoveDownHalfPages(u16),
    MoveUpHalfPages(u16),
    MoveLeftHalfPages(u16),
    MoveRightHalfPages(u16),
    MoveDownPages(u16),
    MoveUpPages(u16),
    MoveToHeadOfLine,
    MoveToEndOfLine,
    MoveToTopOfLines,
    MoveToBottomOfLines,
    MoveToLineNumber(u16),
    ToggleLineNumberPrinting,
    ToggleLineWraps,
    IncrementLines(u16),
    DecrementLines(u16),
    SetNumOfLines(u16),
    SearchIncremental(Seq<char>),
    SearchTrigger,
    SearchNext,
    SearchPrev,
    Message(Option<Seq<char>>),
    Cancel,
    Quit,
    QuitWithClear,
    FollowMode,
    FileUpdated,
    SigInt,
}

/// The view of an optional text.
pub open spec fn text_view(s: Option<String>) -> Option<Seq<char>> {
    match s {
        Some(s) => Some(s@),
        None => None,
    }
}

impl View for PeepEvent {
    type V = EventView;

    open spec fn view(&self) -> EventView {
        match *self {
            PeepEvent::MoveDown(n) => EventView::MoveDown(n),
            PeepEvent::MoveUp(n) => EventView::MoveUp(n),
            PeepEvent::MoveLeft(n) => EventView::MoveLeft(n),
            PeepEvent::MoveRight(n) => EventView::MoveRight(n),
            PeepEvent::MoveDownHalfPages(n) => EventView::MoveDownHalfPages(n),
            PeepEvent::MoveUpHalfPages(n) => EventView::MoveUpHalfPages(n),
            PeepEvent::MoveLeftHalfPages(n) => EventView::MoveLeftHalfPages(n),
            PeepEvent::MoveRightHalfPages(n) => EventView::MoveRightHalfPages(n),
            PeepEvent::MoveDownPages(n) => EventView::MoveDownPages(n),
            PeepEvent::MoveUpPages(n) => EventView::MoveUpPages(n),
            PeepEvent::MoveToHeadOfLine => EventView::MoveToHeadOfLine,
            PeepEvent::MoveToEndOfLine => EventView::MoveToEndOfLine,
            PeepEvent::MoveToTopOfLines => EventView::MoveToTopOfLines,
            PeepEvent::MoveToBottomOfLines => EventView::MoveToBottomOfLines,
            PeepEvent::MoveToLineNumber(n) => EventView::MoveToLineNumber(n),
            PeepEvent::ToggleLineNumberPrinting => EventView::ToggleLineNumberPrinting,
            PeepEvent::ToggleLineWraps => EventView::ToggleLineWraps,
            PeepEvent::IncrementLines(n) => EventView::IncrementLines(n),
            PeepEvent::DecrementLines(n) => EventView::DecrementLines(n),
            PeepEvent::SetNumOfLines(n) => EventView::SetNumOfLines(n),
            PeepEvent::SearchIncremental(s) => EventView::SearchIncremental(s@),
            PeepEvent::SearchTrigger => EventView::SearchTrigger,
            PeepEvent::SearchNext => EventView::SearchNext,
            PeepEvent::SearchPrev => EventView::SearchPrev,
            PeepEvent::Message(s) => EventView::Message(text_view(s)),
            PeepEvent::Cancel => EventView::Cancel,
            PeepEvent::Quit => EventView::Quit,
            PeepEvent::QuitWithClear => EventView::QuitWithClear,
            PeepEvent::FollowMode => EventView::FollowMode,
            PeepEvent::FileUpdated => EventView::FileUpdated,
            PeepEvent::SigInt => EventView::SigInt,
        }
    }
}

/// The view of an optional event.
pub open spec fn event_view(e: Option<PeepEvent>) -> Option<EventView> {
    match e {
        Some(e) => Some(e@),
        None => None,
    }
}

impl PeepEvent {
    /// A copy of the event.
    pub fn duplicate(&self) -> (e: PeepEvent)
        ensures
            e@ == self@,
    {
        match self {
            PeepEvent::MoveDown(n) => PeepEvent::MoveDown(*n),
            PeepEvent::MoveUp(n) => PeepEvent::MoveUp(*n),
            PeepEvent::MoveLeft(n) => PeepEvent::MoveLeft(*n),
            PeepEvent::MoveRight(n) => PeepEvent::MoveRight(*n),
            PeepEvent::MoveDownHalfPages(n) => PeepEvent::MoveDownHalfPages(*n),
            PeepEvent::MoveUpHalfPages(n) => PeepEvent::MoveUpHalfPages(*n),
            PeepEvent::MoveLeftHalfPages(n) => PeepEvent::MoveLeftHalfPages(*n),
            PeepEvent::MoveRightHalfPages(n) => PeepEvent::MoveRightHalfPages(*n),
            PeepEvent::MoveDownPages(n) => PeepEvent::MoveDownPages(*n),
            PeepEvent::MoveUpPages(n) => PeepEvent::MoveUpPages(*n),
            PeepEvent::MoveToHeadOfLine => PeepEvent::MoveToHeadOfLine,
            PeepEvent::MoveToEndOfLine => PeepEvent::MoveToEndOfLine,
            PeepEvent::MoveToTopOfLines => PeepEvent::MoveToTopOfLines,
            PeepEvent::MoveToBottomOfLines => PeepEvent::MoveToBottomOfLines,
            PeepEvent::MoveToLineNumber(n) => PeepEvent::MoveToLineNumber(*n),
            PeepEvent::ToggleLineNumberPrinting => PeepEvent::ToggleLineNumberPrinting,
            PeepEvent::ToggleLineWraps => PeepEvent::ToggleLineWraps,
            PeepEvent::IncrementLines(n) => PeepEvent::IncrementLines(*n),
            PeepEvent::DecrementLines(n) => PeepEvent::DecrementLines(*n),
            PeepEvent::SetNumOfLines(n) => PeepEvent::SetNumOfLines(*n),
            PeepEvent::SearchIncremental(s) => PeepEvent::SearchIncremental(s.clone()),
            PeepEvent::SearchTrigger => PeepEvent::SearchTrigger,
            PeepEvent::SearchNext => PeepEvent::SearchNext,
            PeepEvent::SearchPrev => PeepEvent::SearchPrev,
            PeepEvent::Message(s) => match s {
                Some(s) => PeepEvent::Message(Some(s.clone())),
                None => PeepEvent::Message(None),
            },
            PeepEvent::Cancel => PeepEvent::Cancel,
            PeepEvent::Quit => PeepEvent::Quit,
            PeepEvent::QuitWithClear => PeepEvent::QuitWithClear,
            PeepEvent::FollowMode => PeepEvent::FollowMode,
            PeepEvent::FileUpdated => PeepEvent::FileUpdated,
            PeepEvent::SigInt => PeepEvent::SigInt,
        }
    }
}

} // verus!
