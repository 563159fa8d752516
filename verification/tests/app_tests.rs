use peep::app::{Action, App, PipeReader, PipeStep};
use peep::event::PeepEvent;
use peep::pane::Pane;
use peep::search::{NullSearcher, RegexSearcher, Search, Searcher};

const FOLLOWING_MESSAGE: &str = "\x1b[7mwaiting for data... (press 'F' to abort)\x1b[0m";
const FOLLOWING_HL_MESSAGE: &str = "\x1b[7mwaiting for data... \x1b[0m:";

fn gen_texts(s: &[&str]) -> Vec<String> {
    s.iter().map(|t| t.to_string()).collect()
}

fn numbered_lines(n: usize) -> Vec<String> {
    (0..n).map(|i| format!("line {}", i)).collect()
}

fn session(lines: Vec<String>) -> (App, Pane) {
    let app = App::new();
    let mut pane = Pane::new(40, 10);
    app.setup(&mut pane, lines, Searcher::Regex(RegexSearcher::new("")));
    let _ = pane.take_output();
    (app, pane)
}

#[test]
fn test_app_defaults() {
    let app = App::new();
    assert_eq!(app.show_linenumber, false);
    assert_eq!(app.nlines, 10);
    assert_eq!(app.follow_mode, false);
    assert_eq!(app.tab_width, 4);
    assert_eq!(app.wraps_line, false);
    assert_eq!(app.mode_default_message(), None);
    let app: App = Default::default();
    assert_eq!(app.nlines, 10);
}

#[test]
fn test_setup() {
    let mut app = App::new();
    app.show_linenumber = true;
    app.nlines = 3;
    app.tab_width = 2;
    let mut pane = Pane::new(40, 10);
    let _ = pane.take_output();
    app.setup(&mut pane, gen_texts(&["a\tb", "c"]), Searcher::Null(NullSearcher::new()));
    assert_eq!(pane.pane_size(), (40, 3));
    assert_eq!(pane.position(), (0, 0));
    assert!(pane.shows_line_number());
    assert_eq!(pane.message(), "");
    assert_eq!(
        pane.take_output(),
        "\x1b[1F\x1b[1G\x1b[2K\n\x1b[2K\n\x1b[2K\n\x1b[2K\x1b[3F 1 a b\x1b[m\n 2 c\x1b[m\n\x1b[1E\
         \x1b[7m(END)\x1b[m"
    );

    let mut app = App::new();
    app.follow_mode = true;
    app.nlines = 4;
    let mut pane = Pane::new(40, 10);
    app.setup(&mut pane, numbered_lines(20), Searcher::Null(NullSearcher::new()));
    assert_eq!(pane.position(), (0, 16));
    assert_eq!(pane.message(), FOLLOWING_MESSAGE);
}

#[test]
fn test_handle_normal_motions() {
    let (mut app, mut pane) = session(numbered_lines(100));
    assert_eq!(pane.pane_size(), (40, 9));
    assert_eq!(app.handle_normal(&PeepEvent::MoveDown(3), &mut pane), Action::Continue);
    assert_eq!(pane.position(), (0, 3));
    assert!(pane.take_output().contains(" line 3\x1b[m\n line 4\x1b[m\n"));
    app.handle_normal(&PeepEvent::MoveUp(1), &mut pane);
    assert_eq!(pane.position(), (0, 2));
    app.handle_normal(&PeepEvent::MoveDownPages(2), &mut pane);
    assert_eq!(pane.position(), (0, 20));
    app.handle_normal(&PeepEvent::MoveUpHalfPages(1), &mut pane);
    assert_eq!(pane.position(), (0, 16));
    app.handle_normal(&PeepEvent::MoveDownHalfPages(3), &mut pane);
    assert_eq!(pane.position(), (0, 29));
    app.handle_normal(&PeepEvent::MoveUpPages(1), &mut pane);
    assert_eq!(pane.position(), (0, 20));
    app.handle_normal(&PeepEvent::MoveToBottomOfLines, &mut pane);
    assert_eq!(pane.position(), (0, 91));
    app.handle_normal(&PeepEvent::MoveToTopOfLines, &mut pane);
    assert_eq!(pane.position(), (0, 0));
    app.handle_normal(&PeepEvent::MoveToLineNumber(41), &mut pane);
    assert_eq!(pane.position(), (0, 41));
    app.handle_normal(&PeepEvent::MoveToLineNumber(1000), &mut pane);
    assert_eq!(pane.position(), (0, 99));
    let _ = pane.take_output();
    assert_eq!(app.handle_normal(&PeepEvent::SigInt, &mut pane), Action::Continue);
    assert_eq!(app.handle_normal(&PeepEvent::FileUpdated, &mut pane), Action::Continue);
    assert_eq!(pane.take_output(), "");
}

#[test]
fn test_handle_normal_horizontal_motions() {
    let long = "x".repeat(200);
    let (mut app, mut pane) = session(gen_texts(&[&long]));
    app.handle_normal(&PeepEvent::MoveRight(5), &mut pane);
    assert_eq!(pane.position(), (5, 0));
    app.handle_normal(&PeepEvent::MoveLeft(2), &mut pane);
    assert_eq!(pane.position(), (3, 0));
    app.handle_normal(&PeepEvent::MoveRightHalfPages(1), &mut pane);
    assert_eq!(pane.position(), (23, 0));
    app.handle_normal(&PeepEvent::MoveLeftHalfPages(2), &mut pane);
    assert_eq!(pane.position(), (0, 0));
    app.handle_normal(&PeepEvent::MoveToEndOfLine, &mut pane);
    assert_eq!(pane.position(), (164, 0));
    app.handle_normal(&PeepEvent::MoveToHeadOfLine, &mut pane);
    assert_eq!(pane.position(), (0, 0));
}

#[test]
fn test_handle_normal_options() {
    let (mut app, mut pane) = session(numbered_lines(100));
    app.handle_normal(&PeepEvent::ToggleLineNumberPrinting, &mut pane);
    assert!(app.show_linenumber);
    assert!(pane.shows_line_number());
    app.handle_normal(&PeepEvent::ToggleLineNumberPrinting, &mut pane);
    assert!(!app.show_linenumber);
    assert!(!pane.shows_line_number());
    app.handle_normal(&PeepEvent::MoveRight(1), &mut pane);
    app.handle_normal(&PeepEvent::ToggleLineWraps, &mut pane);
    assert!(app.wraps_line);
    assert_eq!(pane.width_of_text_area(), 39);
    assert_eq!(pane.position(), (0, 0));
    app.handle_normal(&PeepEvent::ToggleLineWraps, &mut pane);
    assert!(!app.wraps_line);
    assert_eq!(pane.width_of_text_area(), 38);
    app.handle_normal(&PeepEvent::SetNumOfLines(4), &mut pane);
    assert_eq!(pane.pane_size(), (40, 4));
    app.handle_normal(&PeepEvent::IncrementLines(2), &mut pane);
    assert_eq!(pane.pane_size(), (40, 6));
    app.handle_normal(&PeepEvent::DecrementLines(10), &mut pane);
    assert_eq!(pane.pane_size(), (40, 1));
    app.handle_normal(&PeepEvent::Message(Some("hello".to_owned())), &mut pane);
    assert_eq!(pane.message(), "hello");
    assert!(pane.take_output().ends_with("hello"));
    app.handle_normal(&PeepEvent::Message(None), &mut pane);
    assert_eq!(pane.message(), "");
}

#[test]
fn test_handle_normal_search() {
    let (mut app, mut pane) = session(gen_texts(&[
        "alpha", "beta", "gamma", "delta", "epsilon", "zeta", "eta", "theta", "iota", "kappa",
        "lambda", "mu",
    ]));
    pane.set_height(3);
    app.handle_normal(&PeepEvent::SearchIncremental("".to_owned()), &mut pane);
    assert_eq!(pane.message(), "/");
    assert!(!pane.highlights());
    app.handle_normal(&PeepEvent::SearchIncremental("e".to_owned()), &mut pane);
    assert_eq!(pane.message(), "/e");
    assert!(pane.highlights());
    assert_eq!(pane.position(), (0, 1));
    app.handle_normal(&PeepEvent::SearchIncremental("et".to_owned()), &mut pane);
    assert_eq!(pane.position(), (0, 1));
    assert!(pane.take_output().contains(" b\x1b[7met\x1b[ma\x1b[m\n"));
    app.handle_normal(&PeepEvent::SearchIncremental("eta$".to_owned()), &mut pane);
    assert_eq!(pane.position(), (0, 1));
    app.handle_normal(&PeepEvent::SearchTrigger, &mut pane);
    assert_eq!(pane.message(), "");
    assert!(pane.highlights());
    app.handle_normal(&PeepEvent::SearchNext, &mut pane);
    assert_eq!(pane.position(), (0, 5));
    app.handle_normal(&PeepEvent::SearchNext, &mut pane);
    assert_eq!(pane.position(), (0, 6));
    app.handle_normal(&PeepEvent::SearchNext, &mut pane);
    assert_eq!(pane.position(), (0, 7));
    // no match further down: the pane stays
    app.handle_normal(&PeepEvent::SearchNext, &mut pane);
    assert_eq!(pane.position(), (0, 7));
    app.handle_normal(&PeepEvent::SearchPrev, &mut pane);
    assert_eq!(pane.position(), (0, 6));
    app.handle_normal(&PeepEvent::SearchPrev, &mut pane);
    app.handle_normal(&PeepEvent::SearchPrev, &mut pane);
    assert_eq!(pane.position(), (0, 1));
    // no match further up: the pane stays
    app.handle_normal(&PeepEvent::SearchPrev, &mut pane);
    assert_eq!(pane.position(), (0, 1));
    app.handle_normal(&PeepEvent::Cancel, &mut pane);
    assert!(!pane.highlights());
    assert_eq!(pane.message(), "");
}

#[test]
fn test_handle_normal_search_at_the_ends() {
    let (mut app, mut pane) = session(gen_texts(&["x", "a", "a"]));
    pane.set_pattern("a").unwrap();
    pane.goto_absolute_line(2);
    // the search for the next match starts at the last line again
    app.handle_normal(&PeepEvent::SearchNext, &mut pane);
    assert_eq!(pane.position(), (0, 2));
    pane.goto_absolute_line(0);
    app.handle_normal(&PeepEvent::SearchPrev, &mut pane);
    assert_eq!(pane.position(), (0, 0));
    assert!(pane.highlights());
    // without a pattern nothing moves and highlighting ends
    pane.set_pattern("").unwrap();
    app.handle_normal(&PeepEvent::SearchNext, &mut pane);
    assert_eq!(pane.position(), (0, 0));
    assert!(!pane.highlights());
}

#[test]
fn test_handle_normal_rejected_pattern() {
    let (mut app, mut pane) = session(gen_texts(&["x", "a(", "a"]));
    app.handle_normal(&PeepEvent::SearchIncremental("a".to_owned()), &mut pane);
    assert_eq!(pane.position(), (0, 1));
    pane.goto_absolute_line(0);
    app.handle_normal(&PeepEvent::SearchIncremental("a(".to_owned()), &mut pane);
    assert_eq!(pane.message(), "/a( [invalid pattern]");
    // nothing else changed
    assert_eq!(pane.searcher().as_str(), "a");
    assert_eq!(pane.position(), (0, 0));
    assert!(pane.highlights());
    pane.show_highlight(false);
    app.handle_normal(&PeepEvent::SearchIncremental("a(b".to_owned()), &mut pane);
    assert!(!pane.highlights());
    assert_eq!(pane.position(), (0, 0));
    app.handle_normal(&PeepEvent::SearchIncremental("a\\(".to_owned()), &mut pane);
    assert_eq!(pane.message(), "/a\\(");
    assert_eq!(pane.searcher().as_str(), "a\\(");
}

#[test]
fn test_search() {
    let (app, mut pane) = session(gen_texts(&["x", "..abc", "abc", "y"]));
    pane.set_pattern("abc").unwrap();
    assert_eq!(app.search(&pane, (0, 0)), Some((2, 1)));
    assert_eq!(app.search(&pane, (0, 1)), Some((2, 1)));
    assert_eq!(app.search(&pane, (5, 2)), Some((0, 2)));
    assert_eq!(app.search(&pane, (0, 3)), None);
    assert_eq!(app.search(&pane, (0, 100)), None);
    assert_eq!(app.search_rev(&pane, (0, 3)), Some((0, 2)));
    assert_eq!(app.search_rev(&pane, (0, 1)), Some((2, 1)));
    assert_eq!(app.search_rev(&pane, (0, 0)), None);
    assert_eq!(app.search_rev(&pane, (0, 100)), None);
}

#[test]
fn test_follow_mode() {
    let (mut app, mut pane) = session(numbered_lines(5));
    assert_eq!(app.dispatch(&PeepEvent::FollowMode, &mut pane), Action::Reload);
    assert!(app.follow_mode);
    assert_eq!(pane.take_output(), "");
    app.reload_lines(&mut pane, numbered_lines(30).split_off(5));
    assert_eq!(pane.lines().len(), 30);
    assert_eq!(pane.position(), (0, 21));
    assert_eq!(pane.message(), FOLLOWING_MESSAGE);
    assert!(pane.take_output().ends_with(FOLLOWING_MESSAGE));
    assert_eq!(app.mode_default_message(), Some(FOLLOWING_MESSAGE.to_owned()));

    // the pane is not moved in follow mode
    assert_eq!(app.dispatch(&PeepEvent::MoveUp(3), &mut pane), Action::Continue);
    assert_eq!(app.dispatch(&PeepEvent::MoveToTopOfLines, &mut pane), Action::Continue);
    assert_eq!(app.dispatch(&PeepEvent::SearchNext, &mut pane), Action::Continue);
    assert_eq!(pane.position(), (0, 21));
    assert_eq!(pane.take_output(), "");

    assert_eq!(app.dispatch(&PeepEvent::FileUpdated, &mut pane), Action::Reload);
    app.reload_lines(&mut pane, gen_texts(&["more"]));
    assert_eq!(pane.position(), (0, 22));

    app.dispatch(&PeepEvent::SearchIncremental("line 2".to_owned()), &mut pane);
    assert_eq!(pane.message(), format!("{}/line 2", FOLLOWING_HL_MESSAGE));
    assert!(pane.highlights());
    assert_eq!(pane.position(), (0, 22));
    assert_eq!(
        app.mode_default_message(),
        Some(format!("{}/line 2", FOLLOWING_HL_MESSAGE))
    );
    app.dispatch(&PeepEvent::SearchIncremental("(".to_owned()), &mut pane);
    assert_eq!(pane.message(), format!("{}/( [invalid pattern]", FOLLOWING_HL_MESSAGE));
    assert_eq!(pane.searcher().as_str(), "line 2");
    assert!(pane.highlights());
    app.dispatch(&PeepEvent::SearchIncremental("".to_owned()), &mut pane);
    assert!(!pane.highlights());
    app.dispatch(&PeepEvent::SearchTrigger, &mut pane);
    assert_eq!(pane.message(), FOLLOWING_MESSAGE);
    app.dispatch(&PeepEvent::Cancel, &mut pane);
    assert_eq!(pane.message(), FOLLOWING_MESSAGE);

    app.dispatch(&PeepEvent::SetNumOfLines(3), &mut pane);
    assert_eq!(pane.pane_size(), (40, 3));
    app.dispatch(&PeepEvent::IncrementLines(1), &mut pane);
    app.dispatch(&PeepEvent::DecrementLines(2), &mut pane);
    assert_eq!(pane.pane_size(), (40, 2));
    app.dispatch(&PeepEvent::ToggleLineNumberPrinting, &mut pane);
    assert!(pane.shows_line_number());
    app.dispatch(&PeepEvent::ToggleLineWraps, &mut pane);
    assert!(app.wraps_line);

    assert_eq!(app.dispatch(&PeepEvent::FollowMode, &mut pane), Action::Continue);
    assert!(!app.follow_mode);
    assert_eq!(pane.message(), "");
    assert_eq!(app.dispatch(&PeepEvent::MoveUp(3), &mut pane), Action::Continue);
    assert_eq!(pane.position(), (0, 19));
}

#[test]
fn test_quit_events() {
    let (mut app, mut pane) = session(numbered_lines(5));
    assert_eq!(app.handle_normal(&PeepEvent::Quit, &mut pane), Action::Quit);
    assert_eq!(pane.take_output(), "\x1b[1G\x1b[2K");
    assert_eq!(app.handle_follow(&PeepEvent::Quit, &mut pane), Action::Quit);
    assert_eq!(pane.take_output(), "\x1b[1G\x1b[2K");
    assert_eq!(app.handle_normal(&PeepEvent::QuitWithClear, &mut pane), Action::Quit);
    assert_eq!(
        pane.take_output(),
        "\x1b[9F\x1b[1G\x1b[2K\n\x1b[2K\n\x1b[2K\n\x1b[2K\n\x1b[2K\n\x1b[2K\n\x1b[2K\n\x1b[2K\n\
         \x1b[2K\n\x1b[2K\x1b[9F\x1b[1G\x1b[2K"
    );
    assert_eq!(app.handle_follow(&PeepEvent::QuitWithClear, &mut pane), Action::Quit);
}

#[test]
fn test_chomp() {
    let mut s = "abc\n".to_owned();
    assert!(PipeReader::chomp(&mut s));
    assert_eq!(s, "abc");
    let mut s = "abc\r\n".to_owned();
    assert!(PipeReader::chomp(&mut s));
    assert_eq!(s, "abc");
    let mut s = "abc".to_owned();
    assert!(!PipeReader::chomp(&mut s));
    assert_eq!(s, "abc");
    let mut s = "abc\r".to_owned();
    assert!(!PipeReader::chomp(&mut s));
    assert_eq!(s, "abc\r");
    let mut s = "\n".to_owned();
    assert!(PipeReader::chomp(&mut s));
    assert_eq!(s, "");
    let mut s = "".to_owned();
    assert!(!PipeReader::chomp(&mut s));
    assert_eq!(s, "");
    let mut s = "a\n\n".to_owned();
    assert!(PipeReader::chomp(&mut s));
    assert_eq!(s, "a\n");
}

#[test]
fn test_pipe_reader_feed() {
    let mut reader = PipeReader::new();
    let mut lines: Vec<String> = vec![];
    reader.feed(&mut lines, "one\ntwo\r\nthr");
    assert_eq!(lines, gen_texts(&["one", "two", "thr"]));
    reader.feed(&mut lines, "ee\n\nfive");
    assert_eq!(lines, gen_texts(&["one", "two", "three", "", "five"]));
    reader.feed(&mut lines, "");
    reader.feed(&mut lines, "\nsix\n");
    assert_eq!(lines, gen_texts(&["one", "two", "three", "", "five", "six"]));
    reader.feed(&mut lines, "seven");
    assert_eq!(lines.len(), 7);
    reader.feed(&mut lines, "\r");
    reader.feed(&mut lines, "\n");
    assert_eq!(lines[6], "seven\r");
    let reader: PipeReader = Default::default();
    let mut reader = reader;
    let mut lines = gen_texts(&["kept"]);
    reader.feed(&mut lines, "new");
    assert_eq!(lines, gen_texts(&["kept", "new"]));
}

#[test]
fn test_reload_chunks() {
    let (mut app, mut pane) = session(vec![]);
    app.follow_mode = true;
    app.reload_chunks(&mut pane, &gen_texts(&["a\nb"]));
    assert_eq!(pane.lines(), &gen_texts(&["a", "b"]));
    app.reload_chunks(&mut pane, &gen_texts(&["c\nd\n", "e\r", "\nf"]));
    assert_eq!(pane.lines(), &gen_texts(&["a", "bc", "d", "e\r", "f"]));
    assert_eq!(pane.message(), FOLLOWING_MESSAGE);
    assert_eq!(pane.position(), (0, 0));
    let mut lines = gen_texts(&["x"]);
    app.read_chunk(&mut lines, "y\nz");
    // the last line is open: what comes next goes on it
    assert_eq!(lines, gen_texts(&["xy", "z"]));
    app.reload_chunks(&mut pane, &gen_texts(&["!\n"]));
    assert_eq!(pane.lines(), &gen_texts(&["a", "bc", "d", "e\r", "f!"]));
    app.reload_chunks(&mut pane, &gen_texts(&["g"]));
    assert_eq!(pane.lines(), &gen_texts(&["a", "bc", "d", "e\r", "f!", "g"]));
    app.reload_chunks(&mut pane, &vec![]);
    assert_eq!(pane.lines().len(), 6);
}

#[test]
fn test_after_watch() {
    assert_eq!(PipeReader::after_watch(None), PipeStep::Stop);
    assert_eq!(PipeReader::after_watch(Some(false)), PipeStep::Read);
    assert_eq!(PipeReader::after_watch(Some(true)), PipeStep::ReadAndStop);
}
