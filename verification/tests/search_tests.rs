use peep::search::{Match, PlaneSearcher, RegexSearcher, Search, SearchError};

#[test]
fn test_plane() {
    let pat = "abc";
    let text = "xabcabcwowabc";

    let mut searcher = PlaneSearcher::new();
    assert_eq!(searcher.set_pattern(&pat).unwrap(), ());
    assert_eq!(searcher.find(&text).unwrap(), Match::new(1, 4));
    let mut matches = searcher.find_iter(&text);
    assert_eq!(matches.next().unwrap(), Match::new(1, 4));
    assert_eq!(matches.next().unwrap(), Match::new(4, 7));
    assert_eq!(matches.next().unwrap(), Match::new(10, 13));
    assert!(matches.next().is_none());

    let pat = "";
    let text = "xabcabcwowabc";
    assert_eq!(searcher.set_pattern(&pat).unwrap(), ());
    assert_eq!(searcher.find(&text).unwrap(), Match::new(0, 0));
    let mut matches = searcher.find_iter(&text);
    for i in 0..text.len() {
        assert_eq!(matches.next().unwrap(), Match::new(i, i));
    }

    let pat = "abc";
    let text = "";
    assert_eq!(searcher.set_pattern(&pat).unwrap(), ());
    assert!(searcher.find(&text).is_none());
    let mut matches = searcher.find_iter(&text);
    assert!(matches.next().is_none());
}

#[test]
fn test_regex() {
    let pat = r"a\wc";
    let text = "xabcabcwowabc";

    let mut searcher = RegexSearcher::try_new("").unwrap();
    assert_eq!(searcher.set_pattern(&pat).unwrap(), ());

    assert_eq!(searcher.find(&text).unwrap(), Match::new(1, 4));

    let mut matches = searcher.find_iter(&text);
    assert_eq!(matches.next().unwrap(), Match::new(1, 4));
    assert_eq!(matches.next().unwrap(), Match::new(4, 7));
    assert_eq!(matches.next().unwrap(), Match::new(10, 13));

    let pat = "";
    let text = "xabcabcwowabc";
    assert_eq!(searcher.set_pattern(&pat).unwrap(), ());
    assert_eq!(searcher.find(&text).unwrap(), Match::new(0, 0));
    let mut matches = searcher.find_iter(&text);
    for i in 0..text.len() {
        assert_eq!(matches.next().unwrap(), Match::new(i, i));
    }

    let pat = r"a\wc";
    let text = "";
    assert_eq!(searcher.set_pattern(&pat).unwrap(), ());
    assert!(searcher.find(&text).is_none());
    let mut matches = searcher.find_iter(&text);
    assert!(matches.next().is_none());
}

#[test]
fn test_plane_empty_pattern_matches_at_the_end_too() {
    let mut searcher = PlaneSearcher::new();
    searcher.set_pattern("").unwrap();
    let mut matches = searcher.find_iter("ab");
    assert_eq!(matches.next(), Some(Match::new(0, 0)));
    assert_eq!(matches.next(), Some(Match::new(1, 1)));
    assert_eq!(matches.next(), Some(Match::new(2, 2)));
    assert_eq!(matches.next(), None);
}

#[test]
fn test_plane_matches_do_not_overlap() {
    let mut searcher = PlaneSearcher::new();
    searcher.set_pattern("aa").unwrap();
    let mut matches = searcher.find_iter("aaaaa");
    assert_eq!(matches.next(), Some(Match::new(0, 2)));
    assert_eq!(matches.next(), Some(Match::new(2, 4)));
    assert_eq!(matches.next(), None);
}

#[test]
fn test_plane_offsets_are_bytes() {
    let mut searcher = PlaneSearcher::new();
    searcher.set_pattern("い").unwrap();
    assert_eq!(searcher.as_str(), "い");
    assert_eq!(searcher.find("あいうえおい"), Some(Match::new(3, 6)));
    let mut matches = searcher.find_iter("あいうえおい");
    assert_eq!(matches.next(), Some(Match::new(3, 6)));
    assert_eq!(matches.next(), Some(Match::new(15, 18)));
    assert_eq!(matches.next(), None);
}

#[test]
fn test_regex_refuses_invalid_pattern_and_keeps_the_old_one() {
    let mut searcher = RegexSearcher::new("ab+");
    assert_eq!(searcher.as_str(), "ab+");
    assert_eq!(searcher.set_pattern("foo(bar"), Err(SearchError::InvalidPattern));
    assert_eq!(searcher.as_str(), "ab+");
    assert_eq!(searcher.find("xxabbbx"), Some(Match::new(2, 6)));
    assert!(RegexSearcher::try_new("foo(bar").is_none());
}

#[test]
fn test_match_accessors() {
    let m = Match::new(3, 9);
    assert_eq!(m.start(), 3);
    assert_eq!(m.end(), 9);
}
