use peep::pane::{ExtendMark, Pane, ScrollStep};
use peep::search::{PlaneSearcher, RegexSearcher, Search, Searcher};

const MARK: &str = "\x1b[38;5;8m+\x1b[m";

fn gen_texts(s: &[&str]) -> Vec<String> {
    let mut v: Vec<String> = vec![];
    for t in s.iter() {
        v.push(t.to_string());
    }
    v
}

fn gen_pane() -> Pane {
    let mut pane = Pane::new(10, 10);
    let _ = pane.take_output();
    pane
}

#[test]
fn test_scroll_up_down() {
    let t = [
        "", "", "", "", "", "", "", "", "", "", "", "", "", "", "", "", "", "", "", "",
    ];
    let texts = gen_texts(&t);
    let mut pane = gen_pane();
    pane.load(texts.clone());
    pane.set_terminal_size(2, 5);
    let pane_height = 4;
    let _ = pane.set_height(pane_height);
    let _ = pane.refresh();

    let stride_page = pane_height;
    let stride_hpage = pane_height / 2;

    // in range
    {
        assert_eq!(pane.position(), (0, 0));
        assert_eq!(pane.scroll_down(&ScrollStep::Char(1)), 1);
        assert_eq!(pane.scroll_down(&ScrollStep::Char(2)), 2);
        assert_eq!(pane.position(), (0, 3));

        assert_eq!(pane.scroll_up(&ScrollStep::Char(1)), 1);
        assert_eq!(pane.scroll_up(&ScrollStep::Char(2)), 2);
        assert_eq!(pane.position(), (0, 0));

        assert_eq!(pane.scroll_down(&ScrollStep::HalfPage(1)), stride_hpage);
        assert_eq!(pane.scroll_down(&ScrollStep::HalfPage(2)), stride_hpage * 2);
        assert_eq!(pane.position(), (0, stride_hpage * 3));

        assert_eq!(pane.scroll_up(&ScrollStep::HalfPage(1)), stride_hpage);
        assert_eq!(pane.scroll_up(&ScrollStep::HalfPage(2)), stride_hpage * 2);
        assert_eq!(pane.position(), (0, 0));

        assert_eq!(pane.scroll_down(&ScrollStep::Page(1)), stride_page);
        assert_eq!(pane.scroll_down(&ScrollStep::Page(2)), stride_page * 2);
        assert_eq!(pane.position(), (0, stride_page * 3));

        assert_eq!(pane.scroll_up(&ScrollStep::Page(1)), stride_page);
        assert_eq!(pane.scroll_up(&ScrollStep::Page(2)), stride_page * 2);
        assert_eq!(pane.position(), (0, 0));
    }

    // out of range
    {
        assert_eq!(
            pane.scroll_down(&ScrollStep::Page(10)),
            texts.len() as u16 - pane_height
        );
        assert_eq!(pane.position(), (0, texts.len() as u16 - pane_height));

        assert_eq!(
            pane.scroll_up(&ScrollStep::Page(10)),
            texts.len() as u16 - pane_height
        );
        assert_eq!(pane.position(), (0, 0));
    }
}

#[test]
fn test_scroll_left_right() {
    let t = ["1234567890123456789012345678901234567890"];
    let texts = gen_texts(&t);
    let size: (u16, u16) = (4, 2);
    let mut pane = gen_pane();
    pane.load(texts.clone());
    pane.set_terminal_size(size.0, size.1);

    let stride_page = size.0;
    let stride_hpage = size.0 / 2;

    // in range
    {
        assert_eq!(pane.position(), (0, 0));
        assert_eq!(pane.scroll_right(&ScrollStep::Char(1)), 1);
        assert_eq!(pane.scroll_right(&ScrollStep::Char(2)), 2);
        assert_eq!(pane.position(), (3, 0));

        assert_eq!(pane.scroll_left(&ScrollStep::Char(1)), 1);
        assert_eq!(pane.scroll_left(&ScrollStep::Char(2)), 2);
        assert_eq!(pane.position(), (0, 0));

        assert_eq!(pane.scroll_right(&ScrollStep::HalfPage(1)), stride_hpage);
        assert_eq!(pane.scroll_right(&ScrollStep::HalfPage(2)), stride_hpage * 2);
        assert_eq!(pane.position(), (stride_hpage * 3, 0));

        assert_eq!(pane.scroll_left(&ScrollStep::HalfPage(1)), stride_hpage);
        assert_eq!(pane.scroll_left(&ScrollStep::HalfPage(2)), stride_hpage * 2);
        assert_eq!(pane.position(), (0, 0));

        assert_eq!(pane.scroll_right(&ScrollStep::Page(1)), stride_page);
        assert_eq!(pane.scroll_right(&ScrollStep::Page(2)), stride_page * 2);
        assert_eq!(pane.position(), (stride_page * 3, 0));

        assert_eq!(pane.scroll_left(&ScrollStep::Page(1)), stride_page);
        assert_eq!(pane.scroll_left(&ScrollStep::Page(2)), stride_page * 2);
        assert_eq!(pane.position(), (0, 0));
    }

    // out of range
    {
        // need to consider right margin
        assert_eq!(
            pane.scroll_right(&ScrollStep::Page(10)),
            texts[0].len() as u16 - size.0 + Pane::MARGIN_RIGHT_WIDTH
        );
        assert_eq!(
            pane.position(),
            (texts[0].len() as u16 - size.0 + Pane::MARGIN_RIGHT_WIDTH, 0)
        );

        let (w, _) = pane.position();
        assert_eq!(pane.scroll_left(&ScrollStep::Page(10)), w,);
        assert_eq!(pane.position(), (0, 0));
    }

    let t = ["1234567890123456789012345678901234567890", ""];
    let texts = gen_texts(&t);
    pane.load(texts.clone());
    assert_eq!(pane.goto_absolute_line(1), 1);
    // now, draw "" only in terminal.
    assert_eq!(pane.scroll_right(&ScrollStep::Char(10)), 0);
}

#[test]
fn test_goto_vertical_lines() {
    let t = [
        "", "", "", "", "", "", "", "", "", "", "", "", "", "", "", "", "", "", "", "",
    ];
    let texts = gen_texts(&t);
    let mut pane = gen_pane();
    pane.load(texts.clone());
    pane.set_terminal_size(2, 5);
    let pane_height = 4;
    let _ = pane.set_height(pane_height);

    pane.scroll_right(&ScrollStep::Char(1));
    assert_eq!(
        pane.goto_bottom_of_lines(),
        (0, texts.len() as u16 - pane_height)
    );
    assert_eq!(pane.position(), (0, texts.len() as u16 - pane_height));

    pane.scroll_right(&ScrollStep::Char(1));
    assert_eq!(pane.goto_top_of_lines(), (0, 0));
    assert_eq!(pane.position(), (0, 0));

    assert_eq!(pane.goto_absolute_line(4), 4);
    assert_eq!(pane.position(), (0, 4));
    assert_eq!(pane.goto_absolute_line(0), 0);
    assert_eq!(pane.position(), (0, 0));
    assert_eq!(pane.goto_absolute_line(100), texts.len() as u16 - 1);
    assert_eq!(pane.position(), (0, texts.len() as u16 - 1));

    // case: buffer height is less than pane height
    let t = ["", "", "", ""];
    let texts = gen_texts(&t);
    pane.load(texts.clone());
    pane.set_terminal_size(2, 10);
    let pane_height = 8;
    let _ = pane.set_height(pane_height);
    assert_eq!(pane.goto_bottom_of_lines(), (0, 0));
    assert_eq!(pane.position(), (0, 0));
    let t = ["", "", "", "", "", "", "", "", "", ""];
    let texts = gen_texts(&t);
    pane.load(texts.clone());
    assert_eq!(pane.goto_bottom_of_lines(), (0, 2));
    assert_eq!(pane.position(), (0, 2));
}

#[test]
fn test_goto_horizontal_line() {
    let t = ["1234567890123456789012345678901234567890"];
    let texts = gen_texts(&t);
    let size: (u16, u16) = (4, 2);
    let mut pane = gen_pane();
    pane.load(texts.clone());
    pane.set_terminal_size(size.0, size.1);

    pane.scroll_right(&ScrollStep::Char(1));
    assert_eq!(pane.goto_head_of_line(), (0, 0));
    assert_eq!(
        pane.goto_tail_of_line(),
        (texts[0].len() as u16 - size.0 + Pane::MARGIN_RIGHT_WIDTH, 0)
    );

    assert_eq!(pane.goto_absolute_horizontal_offset(4), 4);
    assert_eq!(pane.position(), (4, 0));
    assert_eq!(pane.goto_absolute_horizontal_offset(0), 0);
    assert_eq!(pane.position(), (0, 0));
    assert_eq!(
        pane.goto_absolute_horizontal_offset(100),
        texts[0].len() as u16 - size.0 + Pane::MARGIN_RIGHT_WIDTH
    );
}

#[test]
fn test_set_height() {
    let mut pane = gen_pane();
    let size: (u16, u16) = (1, 10);
    pane.set_terminal_size(size.0, size.1);

    assert_eq!(pane.set_height(5), 5);
    assert_eq!(pane.pane_size(), (1, 5));
    assert_eq!(pane.set_height(0), 1);
    assert_eq!(pane.pane_size(), (1, 1));
    assert_eq!(pane.set_height(size.1), size.1 - Pane::MESSAGE_BAR_HEIGHT);
    assert_eq!(pane.pane_size(), (1, size.1 - Pane::MESSAGE_BAR_HEIGHT));
    assert_eq!(pane.set_height(size.1 + 1), size.1 - Pane::MESSAGE_BAR_HEIGHT);
    assert_eq!(pane.pane_size(), (1, size.1 - Pane::MESSAGE_BAR_HEIGHT));

    assert_eq!(pane.set_height(5), 5);
    assert_eq!(pane.pane_size(), (1, 5));
    assert_eq!(pane.decrement_height(1), 4);
    assert_eq!(pane.pane_size(), (1, 4));
    assert_eq!(pane.decrement_height(3), 1);
    assert_eq!(pane.pane_size(), (1, 1));
    assert_eq!(pane.decrement_height(100), 1);
    assert_eq!(pane.pane_size(), (1, 1));

    assert_eq!(pane.set_height(5), 5);
    assert_eq!(pane.pane_size(), (1, 5));
    assert_eq!(pane.increment_height(1), 6);
    assert_eq!(pane.pane_size(), (1, 6));
    assert_eq!(pane.increment_height(3), 9);
    assert_eq!(pane.pane_size(), (1, 9));
    assert_eq!(
        pane.increment_height(100),
        size.1 - Pane::MESSAGE_BAR_HEIGHT
    );
    assert_eq!(pane.pane_size(), (1, size.1 - Pane::MESSAGE_BAR_HEIGHT));
}

#[test]
fn test_set_message() {
    let mut pane = gen_pane();
    pane.set_message(None);
    assert!(pane.message().is_empty());
    pane.set_message(Some("ThisIsTest".to_owned()));
    assert_eq!(pane.message(), "ThisIsTest");
}

#[test]
fn test_set_highlight_searcher() {
    let mut pane = gen_pane();
    let mut searcher = PlaneSearcher::new();
    searcher.set_pattern("abc").unwrap();
    pane.set_highlight_searcher(Searcher::Plane(searcher));
    assert_eq!(pane.searcher().as_str(), "abc");
    assert_eq!(pane.hl_match_ranges("xabcabcwowabc"), vec![(1, 4), (4, 7), (10, 13)]);
    pane.set_highlight_searcher(Searcher::Regex(RegexSearcher::new(r"a\wc")));
    assert_eq!(pane.hl_match_ranges("xabcabcwowabc"), vec![(1, 4), (4, 7), (10, 13)]);
    assert!(pane.set_pattern("w+").is_ok());
    assert_eq!(pane.hl_match_ranges("xabcabcwowabc"), vec![(7, 8), (9, 10)]);
    assert!(pane.set_pattern("(").is_err());
    assert_eq!(pane.searcher().as_str(), "w+");
    assert!(pane.set_pattern("").is_ok());
    assert_eq!(pane.hl_match_ranges("xabcabcwowabc"), vec![]);
}

#[test]
fn test_show_highlight() {
    let mut pane = gen_pane();
    pane.show_highlight(true);
    assert_eq!(pane.highlights(), true);
    pane.show_highlight(false);
    assert_eq!(pane.highlights(), false);
}

#[test]
fn test_show_line_number() {
    let mut pane = gen_pane();
    pane.show_line_number(true);
    assert_eq!(pane.shows_line_number(), true);
    pane.show_line_number(false);
    assert_eq!(pane.shows_line_number(), false);
}

#[test]
fn test_load() {
    let a = ["1234567890123456789012345678901234567890"];
    let b = ["ABCD", "EFGH", "IJKL", "MNOP", "QRST", "UVWX", "YZ"];
    let atxt = gen_texts(&a);
    let btxt = gen_texts(&b);
    let mut pane = gen_pane();
    pane.set_terminal_size(2, 5);

    pane.load(atxt.clone());
    assert_eq!(pane.position(), (0, 0));
    assert_eq!(pane.lines().len(), atxt.len());
    pane.scroll_right(&ScrollStep::Char(1));
    assert_eq!(pane.position(), (1, 0));

    pane.load(btxt.clone());
    assert_eq!(pane.position(), (0, 0));
    assert_eq!(pane.lines().len(), btxt.len());
}

#[test]
fn test_limit_bottom_y() {
    let t = [
        "", "", "", "", "", "", "", "", "", "", "", "", "", "", "", "", "", "", "", "",
    ];
    let nbuflines = t.len() as u16;
    let texts = gen_texts(&t);
    let mut pane = gen_pane();
    pane.load(texts.clone());
    pane.set_terminal_size(2, 10);

    assert_eq!(pane.set_height(1), 1);
    assert_eq!(pane.limit_bottom_y(), nbuflines - 1);
    assert_eq!(pane.set_height(4), 4);
    assert_eq!(pane.limit_bottom_y(), nbuflines - 4);
}

#[test]
fn test_range_of_visible_lines() {
    let t = [
        "", "", "", "", "", "", "", "", "", "", "", "", "", "", "", "", "", "", "", "",
    ];
    let nbuflines = t.len() as u16;
    let texts = gen_texts(&t);
    let mut pane = gen_pane();
    pane.load(texts.clone());
    pane.set_terminal_size(2, 10);
    assert_eq!(pane.set_height(5), 5);

    assert_eq!(pane.goto_absolute_line(0), 0);
    assert_eq!(pane.range_of_visible_lines(), 0..5);
    assert_eq!(pane.goto_absolute_line(10), 10);
    assert_eq!(pane.range_of_visible_lines(), 10..15);
    assert_eq!(pane.goto_absolute_line(nbuflines - 1), nbuflines - 1);
    assert_eq!(
        pane.range_of_visible_lines(),
        (nbuflines as usize - 1)..(nbuflines as usize)
    );
}

#[test]
fn test_limit_right_x() {
    let size: (u16, u16) = (20, 0);
    let mut pane = gen_pane();
    pane.set_terminal_size(size.0, size.1);

    let max_text_length = 10;
    assert_eq!(pane.limit_right_x(0, max_text_length), 0);
    assert_eq!(pane.limit_right_x(5, max_text_length), 0);
    assert_eq!(pane.limit_right_x(20, max_text_length), 0);

    let max_text_length = 50;
    assert_eq!(pane.limit_right_x(0, max_text_length), 0);
    assert_eq!(pane.limit_right_x(20, max_text_length), 20);
    assert_eq!(
        pane.limit_right_x(40, max_text_length),
        // remain 10
        max_text_length - size.0 + Pane::MARGIN_RIGHT_WIDTH
    );
}

#[test]
fn test_scroll_down_stops_at_the_bottom() {
    let texts = gen_texts(&[""; 20]);
    let mut pane = gen_pane();
    pane.load(texts);
    pane.set_terminal_size(2, 5);
    pane.set_height(4);
    assert_eq!(pane.scroll_down(&ScrollStep::Page(10)), 16);
    assert_eq!(pane.position(), (0, 16));
    assert_eq!(pane.scroll_down(&ScrollStep::Page(1)), 0);
    assert_eq!(pane.position(), (0, 16));
}

#[test]
fn test_bottom_then_page_down_does_not_move() {
    let texts = gen_texts(&["a", "b", "c", "d", "e", "f", "g"]);
    let mut pane = gen_pane();
    pane.load(texts);
    pane.set_height(3);
    pane.refresh();
    let bottom = pane.goto_bottom_of_lines();
    assert_eq!(bottom, (0, 4));
    assert_eq!(pane.scroll_down(&ScrollStep::Page(1)), 0);
    assert_eq!(pane.position(), bottom);
    pane.set_wrap(true);
    let bottom = pane.goto_bottom_of_lines();
    assert_eq!(pane.scroll_down(&ScrollStep::Page(1)), 0);
    assert_eq!(pane.position(), bottom);
}

#[test]
fn test_tail_of_line_then_scroll_left_returns_to_the_head() {
    let texts = gen_texts(&["1234567890123456789012345678901234567890"]);
    let mut pane = gen_pane();
    pane.load(texts);
    pane.set_terminal_size(4, 2);
    assert_eq!(pane.goto_tail_of_line(), (40 - 4 + 4, 0));
    assert_eq!(pane.scroll_left(&ScrollStep::Page(10)), 40);
    assert_eq!(pane.position(), (0, 0));
}

#[test]
fn test_set_height_is_clamped_and_a_fixed_point() {
    let mut pane = gen_pane();
    pane.set_terminal_size(80, 24);
    for n in [0u16, 1, 2, 22, 23, 24, 25, 1000, 65535].iter() {
        let h = pane.set_height(*n);
        assert_eq!(h, (*n).clamp(1, 23));
        assert_eq!(pane.pane_size(), (80, h));
        assert_eq!(pane.set_height(h), h);
    }
    assert_eq!(pane.set_height(65535), 23);
    assert_eq!(pane.increment_height(65535), 23);
}

#[test]
fn test_scroll_right_then_left_round_trip() {
    let texts = gen_texts(&["1234567890123456789012345678901234567890"]);
    let mut pane = gen_pane();
    pane.load(texts);
    pane.set_terminal_size(20, 5);
    pane.goto_absolute_horizontal_offset(3);
    assert_eq!(pane.scroll_right(&ScrollStep::Char(7)), 7);
    assert_eq!(pane.scroll_left(&ScrollStep::Char(7)), 7);
    assert_eq!(pane.position(), (3, 0));
    // clamped: the distances stay below the request
    assert_eq!(pane.scroll_right(&ScrollStep::Char(100)), 21);
    assert_eq!(pane.position(), (24, 0));
    assert_eq!(pane.scroll_left(&ScrollStep::Char(100)), 24);
}

#[test]
fn test_scroll_right_snaps_left_on_short_lines() {
    let texts = gen_texts(&["1234567890123456789012345678901234567890", "", ""]);
    let mut pane = gen_pane();
    pane.load(texts);
    pane.set_terminal_size(20, 3);
    pane.set_height(1);
    assert_eq!(pane.scroll_right(&ScrollStep::Char(10)), 10);
    assert_eq!(pane.goto_absolute_line(1), 1);
    assert_eq!(pane.position(), (10, 1));
    assert_eq!(pane.scroll_right(&ScrollStep::Char(1)), 0);
    assert_eq!(pane.position(), (0, 1));
}

#[test]
fn test_goto_absolute_line_on_empty_buffer() {
    let mut pane = gen_pane();
    assert_eq!(pane.goto_absolute_line(5), 0);
    assert_eq!(pane.position(), (0, 0));
    assert_eq!(pane.range_of_visible_lines(), 0..0);
    assert_eq!(pane.limit_bottom_y(), 0);
}

#[test]
fn test_new_pane_clears_its_rows() {
    let mut pane = Pane::new(10, 10);
    assert_eq!(
        pane.take_output(),
        "\x1b[1G\x1b[2K\n\x1b[2K\x1b[1F\x1b[1E"
    );
    assert_eq!(pane.take_output(), "");
    assert_eq!(pane.pane_size(), (10, 1));
}

#[test]
fn test_line_number_width_follows_the_number_of_lines() {
    let mut pane = gen_pane();
    assert_eq!(pane.line_number_printing_width(), 2);
    pane.load(gen_texts(&[""; 99]));
    assert_eq!(pane.line_number_printing_width(), 2);
    pane.load(gen_texts(&[""; 100]));
    assert_eq!(pane.line_number_printing_width(), 3);
    pane.show_line_number(true);
    assert_eq!(pane.decorate_trim("x", 99), "100 x\x1b[m");
    assert_eq!(pane.width_of_text_area(), 5);
    assert_eq!(pane.pane_printable_width(), 7);
    pane.load(vec![String::new(); 100000]);
    assert_eq!(pane.line_number_printing_width(), 6);
    assert_eq!(pane.decorate_trim("x", 41), "    42 x\x1b[m");
}

#[test]
fn test_pages_follow_the_height_of_the_pane() {
    let mut pane = gen_pane();
    pane.load(gen_texts(&[""; 100]));
    pane.set_height(4);
    assert_eq!(pane.scroll_down(&ScrollStep::Page(1)), 4);
    assert_eq!(pane.scroll_down(&ScrollStep::HalfPage(3)), 6);
    pane.set_height(7);
    assert_eq!(pane.scroll_down(&ScrollStep::Page(2)), 14);
    assert_eq!(pane.scroll_up(&ScrollStep::HalfPage(1)), 3);
    assert_eq!(pane.position(), (0, 21));
    // the terminal got lower: so did the pane, and the page
    pane.set_terminal_size(10, 3);
    assert_eq!(pane.scroll_up(&ScrollStep::Page(1)), 3);
    assert_eq!(pane.scroll_up(&ScrollStep::Page(65535)), 18);
    assert_eq!(pane.scroll_down(&ScrollStep::Page(65535)), 97);
}

#[test]
fn test_extend_mark() {
    assert_eq!(ExtendMark('+').to_string(), MARK);
}

#[test]
fn test_decorate_trim() {
    let mut pane = gen_pane();
    pane.load(gen_texts(&["hello", "1234567890123"]));
    assert_eq!(pane.width_of_text_area(), 8);
    assert_eq!(pane.decorate_trim("hello", 0), " hello\x1b[m");
    assert_eq!(pane.decorate_trim("", 0), " \x1b[m");
    assert_eq!(
        pane.decorate_trim("1234567890123", 1),
        format!(" 12345678\x1b[10G{}", MARK)
    );
    assert_eq!(pane.decorate_trim("a\tb", 1), " a   b\x1b[m");
    pane.set_tab_width(0);
    assert_eq!(pane.decorate_trim("a\tb", 1), " ab\x1b[m");
    pane.set_tab_width(4);

    pane.show_line_number(true);
    assert_eq!(pane.width_of_text_area(), 6);
    assert_eq!(pane.decorate_trim("hello", 0), " 1 hello\x1b[m");
    assert_eq!(
        pane.decorate_trim("1234567890123", 11),
        format!("12 123456\x1b[10G{}", MARK)
    );
    assert_eq!(Pane::gen_line_number_string(2, 6), " 7");
    assert_eq!(Pane::gen_line_number_string(0, 6), " 7");
    assert_eq!(Pane::gen_line_number_string(2, 122), "123");
    assert_eq!(Pane::gen_line_number_string(5, 122), "  123");
    assert_eq!(Pane::gen_line_number_string(6, 99999), "100000");
    assert_eq!(Pane::gen_blank_line_number_string(2), "  ");
    assert_eq!(Pane::gen_blank_line_number_string(1), "  ");
    assert_eq!(Pane::gen_blank_line_number_string(4), "    ");

    pane.show_line_number(false);
    pane.load(gen_texts(&["1234567890123", "hello"]));
    pane.set_height(1);
    assert_eq!(pane.scroll_right(&ScrollStep::Char(3)), 3);
    assert_eq!(
        pane.decorate_trim("1234567890123", 1),
        format!("{}45678901\x1b[10G{}", MARK, MARK)
    );
    assert_eq!(pane.decorate_trim("hello", 0), format!("{}lo\x1b[m", MARK));
    assert_eq!(pane.decorate_trim("ab", 0), format!("{}\x1b[m", MARK));
}

#[test]
fn test_decorate_trim_wide_characters() {
    let pane = gen_pane();
    assert_eq!(
        pane.decorate_trim("あいうえお", 0),
        format!(" あいうえ\x1b[10G{}", MARK)
    );
}

#[test]
fn test_decorate_trim_highlight() {
    let mut pane = gen_pane();
    let mut searcher = PlaneSearcher::new();
    searcher.set_pattern("345").unwrap();
    pane.set_highlight_searcher(Searcher::Plane(searcher));
    pane.show_highlight(true);
    assert_eq!(
        pane.decorate_trim("1234567890123456", 0),
        format!(" 12\x1b[7m345\x1b[m678\x1b[10G{}", MARK)
    );
    pane.show_highlight(false);
    assert_eq!(
        pane.decorate_trim("1234567890123456", 0),
        format!(" 12345678\x1b[10G{}", MARK)
    );
}

#[test]
fn test_decorate_without_highlight_keeps_the_text() {
    let mut pane = gen_pane();
    pane.set_terminal_size(40, 10);
    for tab_width in [0u16, 1, 4, 8, 100].iter() {
        pane.set_tab_width(*tab_width);
        for line in ["", "plain text", "あいう abc"].iter() {
            assert_eq!(pane.decorate_trim(line, 3), format!(" {}\x1b[m", line));
        }
        pane.set_wrap(true);
        assert_eq!(pane.decorate_wrap("plain text", 3, 5), vec![" plain text".to_owned()]);
        pane.set_wrap(false);
    }
}

#[test]
fn test_hl_words_for_trimed() {
    let on = "\x1b[7m";
    let off = "\x1b[m";
    assert_eq!(Pane::hl_words_for_trimed("cdefgh", &(2, 8), &[]), "cdefgh");
    assert_eq!(
        Pane::hl_words_for_trimed("cdefgh", &(2, 8), &[(0, 1), (1, 3), (4, 5), (7, 10), (12, 13)]),
        format!("{on}c{off}d{on}e{off}fg{on}h{off}", on = on, off = off)
    );
    assert_eq!(
        Pane::hl_words_for_trimed("cdefgh", &(2, 8), &[(0, 10)]),
        format!("{on}cdefgh{off}", on = on, off = off)
    );
    assert_eq!(Pane::hl_words_for_trimed("cdefgh", &(2, 8), &[(9, 10)]), "cdefgh");
    assert_eq!(
        Pane::hl_words_for_trimed("cdefgh", &(2, 8), &[(3, 4), (9, 10)]),
        format!("c{on}d{off}efgh", on = on, off = off)
    );
    assert_eq!(
        Pane::hl_words_for_trimed("cdefgh", &(2, 8), &[(4, 4)]),
        format!("cd{on}{off}efgh", on = on, off = off)
    );
    assert_eq!(
        Pane::hl_words_for_trimed("あいう", &(3, 12), &[(6, 9)]),
        format!("あ{on}い{off}う", on = on, off = off)
    );
}

#[test]
fn test_decorate_wrap() {
    let mut pane = gen_pane();
    pane.set_wrap(true);
    assert_eq!(pane.width_of_text_area(), 9);
    assert_eq!(
        pane.decorate_wrap("12345678901234567890", 0, 10),
        vec![
            " 123456789".to_owned(),
            format!("{}012345678", MARK),
            format!("{}90", MARK),
        ]
    );
    assert_eq!(
        pane.decorate_wrap("12345678901234567890", 0, 2),
        vec![" 123456789".to_owned(), format!("{}012345678", MARK)]
    );
    assert_eq!(pane.decorate_wrap("", 0, 3), vec!["".to_owned()]);
    pane.show_line_number(true);
    assert_eq!(
        pane.decorate_wrap("1234567890", 4, 10),
        vec![" 5 1234567".to_owned(), format!("  {}890", MARK)]
    );
    assert_eq!(pane.decorate_wrap("", 4, 10), vec![" 5".to_owned()]);
    assert_eq!(pane.decorate("1234567890", 4, 1), vec![" 5 1234567".to_owned()]);
}

#[test]
fn test_decorate_wrap_without_room_for_text_ends() {
    let mut pane = gen_pane();
    pane.set_wrap(true);
    pane.set_terminal_size(1, 10);
    assert_eq!(pane.width_of_text_area(), 0);
    assert_eq!(pane.decorate_wrap("abc", 0, 3), vec![" ", " ", " "]);
    pane.set_terminal_size(2, 10);
    assert_eq!(pane.decorate_wrap("あ", 0, 2), vec![" ".to_owned(), MARK.to_owned()]);
}

#[test]
fn test_refresh() {
    let mut pane = gen_pane();
    pane.load(gen_texts(&["a", "b", "c"]));
    pane.set_height(2);
    pane.refresh();
    assert_eq!(
        pane.take_output(),
        "\x1b[1F\x1b[1G\x1b[2K\n\x1b[2K\n\x1b[2K\x1b[2F a\x1b[m\n b\x1b[m\n"
    );
    assert_eq!(pane.scroll_down(&ScrollStep::Page(1)), 1);
    pane.refresh();
    assert_eq!(
        pane.take_output(),
        "\x1b[2F\x1b[1G\x1b[2K\n\x1b[2K\n\x1b[2K\x1b[2F b\x1b[m\n c\x1b[m\n\x1b[7m(END)\x1b[m"
    );
    pane.set_message(Some("/abc".to_owned()));
    pane.set_height(1);
    pane.refresh();
    assert_eq!(
        pane.take_output(),
        "\x1b[2F\x1b[1G\x1b[2K\n\x1b[2K\n\x1b[2K\x1b[2F b\x1b[m\n/abc"
    );
    pane.set_message(None);
    pane.set_height(5);
    pane.refresh();
    assert_eq!(
        pane.take_output(),
        "\x1b[1F\x1b[1G\x1b[2K\n\x1b[2K\n\x1b[2K\n\x1b[2K\n\x1b[2K\n\x1b[2K\x1b[5F b\x1b[m\n c\x1b[m\n\
         \x1b[3E\x1b[7m(END)\x1b[m"
    );
}

#[test]
fn test_refresh_wrapped_lines_fill_the_pane() {
    let mut pane = gen_pane();
    pane.load(gen_texts(&["12345678901234567890", "x", "y"]));
    pane.set_wrap(true);
    pane.set_height(2);
    pane.refresh();
    assert_eq!(
        pane.take_output(),
        format!(
            "\x1b[1F\x1b[1G\x1b[2K\n\x1b[2K\n\x1b[2K\x1b[2F 123456789\n{}012345678\n",
            MARK
        )
    );
    // a page is as many lines as the pane has rows, but the bottom is near
    assert_eq!(pane.limit_bottom_y(), 1);
    assert_eq!(pane.scroll_down(&ScrollStep::Page(1)), 1);
}

#[test]
fn test_limit_bottom_y_wrapped() {
    let mut pane = gen_pane();
    pane.load(gen_texts(&["a", "b", "c", "d", "e", "f"]));
    pane.set_wrap(true);
    pane.set_height(4);
    assert_eq!(pane.limit_bottom_y(), 2);
    pane.load(gen_texts(&["a", "b", "c", "12345678901234567890"]));
    assert_eq!(pane.limit_bottom_y(), 2);
    pane.set_height(3);
    assert_eq!(pane.limit_bottom_y(), 3);
    pane.load(gen_texts(&["a"]));
    assert_eq!(pane.limit_bottom_y(), 0);
}

#[test]
fn test_quit() {
    let mut pane = gen_pane();
    pane.quit();
    assert_eq!(pane.take_output(), "\x1b[1G\x1b[2K");
    pane.load(gen_texts(&["a", "b", "c"]));
    pane.set_height(2);
    pane.refresh();
    let _ = pane.take_output();
    pane.quit_with_clear();
    assert_eq!(
        pane.take_output(),
        "\x1b[2F\x1b[1G\x1b[2K\n\x1b[2K\n\x1b[2K\x1b[2F\x1b[1G\x1b[2K"
    );
}

#[test]
fn test_append_lines() {
    let mut pane = gen_pane();
    pane.load(gen_texts(&["a", "b"]));
    pane.goto_absolute_line(1);
    pane.append_lines(gen_texts(&["c", "d"]));
    assert_eq!(pane.lines(), &gen_texts(&["a", "b", "c", "d"]));
    assert_eq!(pane.position(), (0, 1));
}
