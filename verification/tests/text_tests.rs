use peep::tab::TabExpand;
use peep::unicode_divide::{SeekError, SeekFrom, UnicodeStrDivider};

#[test]
fn test_tab() {
    let data = [
        ("\t56789", "    56789"),
        ("1\t56789", "1   56789"),
        ("12\t56789", "12  56789"),
        ("123\t56789", "123 56789"),
        ("1234\t9", "1234    9"),
        ("12345\t9", "12345   9"),
        ("123456\t9", "123456  9"),
        ("1234567\t9", "1234567 9"),
        ("12345678\t", "12345678    "),
        ("\t\t", "        "),
        ("1\t\t", "1       "),
        ("12\t\t", "12      "),
        ("123\t\t", "123     "),
        ("123\t\t9", "123     9"),
        ("123\t5\t9", "123 5   9"),
    ];
    for d in data.iter() {
        assert_eq!(d.0.expand_tab(4), d.1);
    }
}

#[test]
fn test_tab_width_zero_removes_tabs() {
    assert_eq!("a\tb\t".expand_tab(0), "ab");
}

#[test]
fn test_tab_width_is_capped() {
    assert_eq!("\t|".expand_tab(100), "                                |");
    assert_eq!("ab\t|".expand_tab(32), "ab                              |");
}

#[test]
fn test_tab_counts_display_columns() {
    assert_eq!("あ\tx".expand_tab(4), "あ  x");
    assert_eq!("ああ\tx".expand_tab(4), "ああ    x");
}

#[test]
fn test_tab_drops_control_characters() {
    assert_eq!("a\x1b[7mb\r".expand_tab(4), "a[7mb");
}

#[test]
fn test_iterator() {
    let ascii_sentence = "1234567890";
    let unicode_sentence = "あいうえお";

    let mut ucdiv = UnicodeStrDivider::new(&ascii_sentence, 2);
    assert_eq!(ucdiv.next().unwrap(), "12");
    assert_eq!(ucdiv.next().unwrap(), "34");
    assert_eq!(ucdiv.next().unwrap(), "56");
    assert_eq!(ucdiv.next().unwrap(), "78");
    assert_eq!(ucdiv.next().unwrap(), "90");
    assert_eq!(ucdiv.next(), None);

    let mut ucdiv = UnicodeStrDivider::new(&unicode_sentence, 2);
    assert_eq!(ucdiv.next().unwrap(), "あ");
    assert_eq!(ucdiv.next().unwrap(), "い");
    assert_eq!(ucdiv.next().unwrap(), "う");
    assert_eq!(ucdiv.next().unwrap(), "え");
    assert_eq!(ucdiv.next().unwrap(), "お");
    assert_eq!(ucdiv.next(), None);

    let mut ucdiv = UnicodeStrDivider::new(&unicode_sentence, 4);
    assert_eq!(ucdiv.next().unwrap(), "あい");
    assert_eq!(ucdiv.next().unwrap(), "うえ");
    assert_eq!(ucdiv.next().unwrap(), "お");
    assert_eq!(ucdiv.next(), None);
}

#[test]
fn test_seek() {
    let ascii_sentence = "1234567890";
    let unicode_sentence = "あいうえお";

    let mut ucdiv = UnicodeStrDivider::new(&ascii_sentence, 2);
    assert_eq!(ucdiv.next().unwrap(), "12");
    assert!(ucdiv.seek(SeekFrom::Start(0)).is_ok());
    assert_eq!(ucdiv.next().unwrap(), "12");
    assert!(ucdiv.seek(SeekFrom::Current(5)).is_ok());
    assert_eq!(ucdiv.next().unwrap(), "89");
    assert_eq!(ucdiv.next().unwrap(), "0");
    assert_eq!(ucdiv.next(), None);
    assert!(ucdiv.seek(SeekFrom::Start(1)).is_ok());
    assert_eq!(ucdiv.next().unwrap(), "23");

    let mut ucdiv = UnicodeStrDivider::new(&unicode_sentence, 2);
    assert_eq!(ucdiv.next().unwrap(), "あ");
    assert!(ucdiv.seek(SeekFrom::Start(1)).is_ok());
    assert_eq!(ucdiv.next().unwrap(), "あ");
    assert!(ucdiv.seek(SeekFrom::Current(2)).is_ok());
    assert_eq!(ucdiv.next().unwrap(), "う");
    assert!(ucdiv.seek(SeekFrom::Current(10)).is_ok());
    assert_eq!(ucdiv.next(), None);
    assert!(ucdiv.seek(SeekFrom::Start(3)).is_ok());
    assert_eq!(ucdiv.next().unwrap(), "い");

    assert!(ucdiv.seek(SeekFrom::End(0)).is_err());
}

#[test]
fn test_divider_ranges_are_byte_offsets() {
    let mut ucdiv = UnicodeStrDivider::new("あいうえお", 4);
    assert_eq!(ucdiv.last_range(), (0, 0));
    assert_eq!(ucdiv.next().unwrap(), "あい");
    assert_eq!(ucdiv.last_range(), (0, 6));
    assert_eq!(ucdiv.next().unwrap(), "うえ");
    assert_eq!(ucdiv.last_range(), (6, 12));
    assert_eq!(ucdiv.seek(SeekFrom::Start(2)), Ok(3));
    assert_eq!(ucdiv.last_range(), (3, 3));
    assert_eq!(ucdiv.seek(SeekFrom::Current(3)), Ok(3));
    assert_eq!(ucdiv.last_range(), (6, 6));
    assert_eq!(ucdiv.seek(SeekFrom::End(0)), Err(SeekError::EndNotSupported));
    assert_eq!(ucdiv.last_range(), (6, 6));
    ucdiv.set_width(2);
    assert_eq!(ucdiv.next().unwrap(), "う");
    assert_eq!(ucdiv.last_range(), (6, 9));
}

#[test]
fn test_divider_slice_wider_than_width_is_empty() {
    let mut ucdiv = UnicodeStrDivider::new("あい", 1);
    assert_eq!(ucdiv.next().unwrap(), "");
    assert_eq!(ucdiv.last_range(), (0, 0));
    assert_eq!(ucdiv.next().unwrap(), "");
}

#[test]
fn test_divider_seek_on_empty_line_and_negative_offset() {
    let mut ucdiv = UnicodeStrDivider::new("", 4);
    assert_eq!(ucdiv.seek(SeekFrom::Start(3)), Ok(0));
    assert_eq!(ucdiv.next(), None);
    let mut ucdiv = UnicodeStrDivider::new("abcdef", 2);
    assert_eq!(ucdiv.seek(SeekFrom::Current(-1)), Ok(6));
    assert_eq!(ucdiv.next(), None);
}
