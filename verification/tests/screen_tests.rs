use peep::screen::{Screen, ScreenCall};

fn lines() -> Vec<String> {
    vec![
        "[1]: aa<".to_owned(),
        "[2]: bbbb<".to_owned(),
        "[3]: cccccccc<".to_owned(),
        "[4]: dddddddddddddddd<".to_owned(),
        "[5]: eeeeeeeeeeeeeeeeeeeeeeeeeeeeeeee<".to_owned(),
        "[6]: ffffffffffffffffffffffffffffffffffffffffffffffffffffffffffffffff<".to_owned(),
        "[7]: gggggggggggggggggggggggggggggggggggggggggggggggggggggggggggggggggggggggggggggggggggggggggggggggggggggggggggggggggggggggggggggggg<".to_owned(),
        "[8]: hhhhhhhhhhhhhhhhhhhhhhhhhhhhhhhhhhhhhhhhhhhhhhhhhhhhhhhhhhhhhhhhhhhhhhhhhhhhhhhhhhhhhhhhhhhhhhhhhhhhhhhhhhhhhhhhhhhhhhhhhhhhhhhhhhhhhhhhhhhhhhhhhhhhhhhhhhhhhhhhhhhhhhhhhhhhhhhhhhhhhhhhhhhhhhhhhhhhhhhhhhhhhhhhhhhhhhhhhhhhhhhhhhhhhhhhhhhhhhhhhhhhhhhhhhhhhhhh<".to_owned(),
    ]
}

#[test]
fn test_screen() {
    let buf = lines();
    let nlines = 4;

    let mut scr = Screen::new(buf, (80, 24), nlines);
    scr.call(ScreenCall::MoveToTopOfLines);
    assert_eq!(scr.position(), (0, 0));

    scr.call(ScreenCall::MoveDown(1));
    scr.call(ScreenCall::Message(Some("this is debug message")));
    assert_eq!(scr.position(), (0, 1));
    scr.call(ScreenCall::MoveDown(2));
    assert_eq!(scr.position(), (0, 3));
    scr.call(ScreenCall::MoveRight(1));
    assert_eq!(scr.position(), (1, 3));
    scr.call(ScreenCall::MoveRight(2));
    assert_eq!(scr.position(), (3, 3));
    scr.call(ScreenCall::MoveToEndOfLine);
    scr.call(ScreenCall::Message(Some("this message will be cleared soon.")));
    assert_eq!(scr.position(), (62, 3));
    scr.call(ScreenCall::MoveLeft(1));
    assert_eq!(scr.position(), (61, 3));
    scr.call(ScreenCall::MoveLeft(2));
    scr.call(ScreenCall::Message(None));
    assert_eq!(scr.position(), (59, 3));
    scr.call(ScreenCall::MoveToHeadOfLine);
    assert_eq!(scr.position(), (0, 3));
    scr.call(ScreenCall::MoveToBottomOfLines);
    assert_eq!(scr.position(), (0, 4));
    scr.call(ScreenCall::MoveToTopOfLines);
    assert_eq!(scr.position(), (0, 0));
    scr.call(ScreenCall::IncrementLines(1));
    assert_eq!(scr.window_size(), (80, 5));
    scr.call(ScreenCall::IncrementLines(2));
    assert_eq!(scr.window_size(), (80, 7));
    scr.call(ScreenCall::DecrementLines(3));
    assert_eq!(scr.window_size(), (80, 4));
    scr.call(ScreenCall::MoveDown(1));
    assert_eq!(scr.position(), (0, 1));
    scr.call(ScreenCall::MoveDown(1));
    assert_eq!(scr.position(), (0, 2));
    let _ = scr.take_output();
    scr.call(ScreenCall::Quit);
    assert_eq!(scr.take_output(), "\x1b[2K\n");
}

#[test]
fn test_screen_output() {
    let mut scr = Screen::new(
        vec!["abcdef".to_owned(), "xyz".to_owned(), "last".to_owned()],
        (4, 10),
        2,
    );
    assert_eq!(scr.take_output(), "\x1b[2K\n\x1b[2K\n\x1b[2F\x1b[2E");
    scr.call(ScreenCall::Refresh);
    assert_eq!(
        scr.take_output(),
        "\x1b[2F\x1b[2K\n\x1b[2K\n\x1b[2K\n\x1b[3Fabcd\nxyz\n:"
    );
    // nothing changed: nothing is written
    scr.call(ScreenCall::MoveUp(1));
    scr.call(ScreenCall::MoveToHeadOfLine);
    scr.call(ScreenCall::ShowNonPrinting(true));
    assert_eq!(scr.take_output(), "");
    scr.call(ScreenCall::MoveDown(5));
    assert_eq!(scr.position(), (0, 1));
    assert_eq!(
        scr.take_output(),
        "\x1b[2F\x1b[2K\n\x1b[2K\n\x1b[2K\n\x1b[3Fxyz\nlast\n:"
    );
    scr.call(ScreenCall::MoveRight(1));
    assert_eq!(scr.position(), (1, 1));
    assert!(scr.take_output().ends_with("yz\nast\n:"));
    scr.call(ScreenCall::Message(Some("hi")));
    assert!(scr.take_output().ends_with("yz\nast\n:hi"));
    scr.call(ScreenCall::MoveToTopOfLines);
    assert_eq!(scr.position(), (0, 0));
    scr.call(ScreenCall::ShowLineNumber(true));
    scr.call(ScreenCall::Refresh);
    assert!(scr.take_output().ends_with("   1 \n   2 \n:hi"));
    scr.set_terminal_size(8, 10);
    scr.call(ScreenCall::Refresh);
    assert!(scr.take_output().ends_with("   1 abc\n   2 xyz\n:hi"));
    scr.call(ScreenCall::SetNumOfLines(5));
    assert!(scr.take_output().ends_with("   1 abc\n   2 xyz\n   3 las\n:hi"));
}

#[test]
fn test_screen_highlight_word() {
    let mut scr = Screen::new(vec!["abcabc".to_owned(), "xyz".to_owned()], (6, 10), 2);
    scr.call(ScreenCall::HighLightWord(Some("bc")));
    assert_eq!(scr.hlword(), "bc");
    assert!(scr
        .take_output()
        .ends_with("a\x1b[7mbc\x1b[ma\x1b[7mbc\x1b[m\nxyz\n:"));
    scr.call(ScreenCall::HighLightWord(Some("bc")));
    assert_eq!(scr.take_output(), "");
    scr.call(ScreenCall::HighLightWord(Some("")));
    assert_eq!(scr.hlword(), "bc");
    assert!(scr.take_output().ends_with("abcabc\nxyz\n:"));
    scr.call(ScreenCall::HighLightWord(Some("")));
    scr.call(ScreenCall::HighLightWord(None));
    assert_eq!(scr.take_output(), "");
    scr.call(ScreenCall::HighLightWord(Some("z")));
    scr.call(ScreenCall::HighLightWord(None));
    assert!(scr.take_output().ends_with("abcabc\nxyz\n:"));
}

#[test]
fn test_screen_highlight() {
    assert_eq!(
        Screen::highlight("abcabc", "bc", (0, 6)),
        "a\x1b[7mbc\x1b[ma\x1b[7mbc\x1b[m"
    );
    assert_eq!(
        Screen::highlight("abcabc", "bc", (2, 5)),
        "\x1b[7mc\x1b[ma\x1b[7mb\x1b[m"
    );
    assert_eq!(Screen::highlight("abcabc", "x", (1, 3)), "bc");
    assert_eq!(Screen::highlight("abcabcabc", "bc", (0, 3)), "a\x1b[7mbc\x1b[m");
    // a match that only touches the range is shown as an empty match
    assert_eq!(
        Screen::highlight("abcabc", "bc", (3, 4)),
        "\x1b[7m\x1b[ma\x1b[7m\x1b[m"
    );
    // offsets that are no offsets of characters
    assert_eq!(Screen::highlight("あい", "x", (1, 3)), "#");
    assert_eq!(Screen::highlight("あい", "x", (3, 6)), "い");
    assert_eq!(Screen::highlight("abc", "x", (2, 9)), "#");
}

#[test]
fn test_screen_fit_offset_and_ranges() {
    assert_eq!(Screen::fit_offset(0, 10, 20), 0);
    assert_eq!(Screen::fit_offset(5, 10, 20), 0);
    assert_eq!(Screen::fit_offset(20, 50, 20), 20);
    assert_eq!(Screen::fit_offset(39, 50, 20), 38);
    let mut scr = Screen::new(vec![String::new(); 20], (10, 10), 4);
    assert_eq!(scr.lines_range(4), (0, 4));
    assert_eq!(scr.lines_range(30), (0, 20));
    assert_eq!(scr.limit_bottom_y(), 16);
    scr.call(ScreenCall::MoveDownPages(2));
    assert_eq!(scr.position(), (0, 8));
    scr.call(ScreenCall::MoveDownHalfPages(3));
    assert_eq!(scr.position(), (0, 14));
    scr.call(ScreenCall::MoveUpPages(1));
    assert_eq!(scr.position(), (0, 10));
    scr.call(ScreenCall::MoveUpHalfPages(1));
    assert_eq!(scr.position(), (0, 8));
    scr.call(ScreenCall::MoveToLineNumber(100));
    assert_eq!(scr.position(), (0, 19));
    assert_eq!(scr.lines_range(4), (16, 20));
    scr.call(ScreenCall::MoveToLineNumber(3));
    assert_eq!(scr.position(), (0, 3));
    scr.call(ScreenCall::DecrementLines(4));
    assert_eq!(scr.window_size(), (10, 4));
    scr.call(ScreenCall::SetNumOfLines(0));
    assert_eq!(scr.window_size(), (10, 4));
    scr.call(ScreenCall::SetNumOfLines(100));
    assert_eq!(scr.window_size(), (10, 10));
    let mut scr = Screen::new(vec![], (10, 10), 4);
    scr.call(ScreenCall::MoveToLineNumber(3));
    scr.call(ScreenCall::MoveToBottomOfLines);
    assert_eq!(scr.position(), (0, 0));
    assert_eq!(scr.limit_bottom_y(), 0);
}
