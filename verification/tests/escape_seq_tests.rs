use peep::escape_seq::csi::{
    cha, cnl, cpl, cub, cud, cuf, cup, cuu, decscusr, dsr_request, ed, el, rcp, rm, scp, sd, sgr,
    sgr_color, sm, su, DecscusrStyle, EdClear, ElClear, SgrCode, SgrColor,
};

fn setup(w: &mut String) {
    scp(w);
}

fn teardown(w: &mut String) {
    rcp(w);
}

#[test]
fn csi_test_sgr() {
    let mut w = String::new();
    let w = &mut w;

    sgr(w, SgrCode::Normal); // reset
    w.push_str("0");

    sgr(w, SgrCode::Bold); // bold on
    w.push_str("1");
    sgr(w, SgrCode::BoldFaintOff); // bold off

    sgr(w, SgrCode::Faint); // faint on
    w.push_str("2");
    sgr(w, SgrCode::BoldFaintOff); // faint off

    sgr(w, SgrCode::Italic); // italic on
    w.push_str("3");
    sgr(w, SgrCode::ItalicOff); // italic off

    sgr(w, SgrCode::Underline); // underline on
    w.push_str("4");
    sgr(w, SgrCode::UnderlineOff); // underline off

    sgr(w, SgrCode::SlowBlink); // blink on
    w.push_str("5");
    sgr(w, SgrCode::Steady); // blink off

    sgr(w, SgrCode::RapidBlink); // blink on
    w.push_str("6");
    sgr(w, SgrCode::Steady); // blink off

    sgr(w, SgrCode::Inverse); // inverse on
    w.push_str("7");
    sgr(w, SgrCode::Positive); // inverse off

    sgr(w, SgrCode::Strikethrough); // strikethrough on
    w.push_str("9");
    sgr(w, SgrCode::StrikethroughOff); // strikethrough off

    assert_eq!(
        w.as_str(),
        "\x1b[0m0\x1b[1m1\x1b[22m\x1b[2m2\x1b[22m\x1b[3m3\x1b[23m\x1b[4m4\x1b[24m\x1b[5m5\x1b[25m\
         \x1b[6m6\x1b[25m\x1b[7m7\x1b[27m\x1b[9m9\x1b[29m"
    );
    w.clear();

    sgr(w, SgrCode::FgColorBlack); // fg: black
    sgr(w, SgrCode::BgColorRed); // bg: red
    w.push_str("30");
    sgr(w, SgrCode::BgColorDefault); // bg: default
    sgr(w, SgrCode::FgColorRed); // fg: red
    w.push_str("31");
    sgr(w, SgrCode::FgColorGreen); // fg: green
    w.push_str("32");
    sgr(w, SgrCode::FgColorYellow); // fg: yellow
    w.push_str("33");
    sgr(w, SgrCode::FgColorBlue); // fg: blue
    w.push_str("34");
    sgr(w, SgrCode::FgColorMagenta); // fg: magenta
    w.push_str("35");
    sgr(w, SgrCode::FgColorCyan); // fg: cyan
    w.push_str("36");
    sgr(w, SgrCode::FgColorWhite); // fg: white
    w.push_str("37");
    sgr(w, SgrCode::FgColorDefault); // fg: default
    assert_eq!(
        w.as_str(),
        "\x1b[30m\x1b[41m30\x1b[49m\x1b[31m31\x1b[32m32\x1b[33m33\x1b[34m34\x1b[35m35\x1b[36m36\
         \x1b[37m37\x1b[39m"
    );
    w.clear();

    sgr(w, SgrCode::BgColorBlack); // bg: black
    w.push_str("40");
    sgr(w, SgrCode::BgColorRed); // bg: red
    w.push_str("41");
    sgr(w, SgrCode::BgColorGreen); // bg: green
    w.push_str("42");
    sgr(w, SgrCode::BgColorYellow); // bg: yellow
    w.push_str("43");
    sgr(w, SgrCode::BgColorBlue); // bg: blue
    w.push_str("44");
    sgr(w, SgrCode::BgColorMagenta); // bg: magenta
    w.push_str("45");
    sgr(w, SgrCode::BgColorCyan); // bg: cyan
    w.push_str("46");
    sgr(w, SgrCode::FgColorRed); // fg: red
    sgr(w, SgrCode::BgColorWhite); // bg: white
    w.push_str("47");
    sgr(w, SgrCode::FgColorWhite); // fg: reset
    sgr(w, SgrCode::BgColorWhite); // bg: default

    sgr(w, SgrCode::Bold); // bold on
    sgr(w, SgrCode::Underline); // underline on
    sgr(w, SgrCode::SlowBlink); // blink on
    sgr(w, SgrCode::Normal); // reset
    w.push_str("x");

    w.push_str("\n");
    assert_eq!(
        w.as_str(),
        "\x1b[40m40\x1b[41m41\x1b[42m42\x1b[43m43\x1b[44m44\x1b[45m45\x1b[46m46\x1b[31m\x1b[47m47\
         \x1b[37m\x1b[47m\x1b[1m\x1b[4m\x1b[5m\x1b[0mx\n"
    );
}

#[test]
fn csi_test_sgr_color() {
    let mut w = String::new();
    let w = &mut w;

    sgr(w, SgrCode::Normal); // reset
    w.push_str("0");

    sgr_color(w, SgrColor::FgColor8bit(0));
    w.push_str("A");
    sgr_color(w, SgrColor::FgColor8bit(1));
    w.push_str("B");
    sgr_color(w, SgrColor::FgColor8bit(0));
    w.push_str("A");
    sgr_color(w, SgrColor::FgColor8bit(1));
    w.push_str("B");
    assert_eq!(
        w.as_str(),
        "\x1b[0m0\x1b[38;5;0mA\x1b[38;5;1mB\x1b[38;5;0mA\x1b[38;5;1mB"
    );
    w.clear();
    sgr_color(w, SgrColor::BgColor8bit(255));
    sgr_color(w, SgrColor::FgColor24bit((1, 20, 255)));
    sgr_color(w, SgrColor::BgColor24bit((0, 0, 7)));
    assert_eq!(w.as_str(), "\x1b[48;5;255m\x1b[38;2;1;20;255m\x1b[48;2;0;0;7m");
}

#[test]
fn csi_test_decscusr() {
    let mut w = String::new();
    let w = &mut w;
    setup(w);
    decscusr(w, 1);
    decscusr(w, 2);
    decscusr(w, 3);
    decscusr(w, 4);
    decscusr(w, 5);
    decscusr(w, 6);
    decscusr(w, 2);
    teardown(w);
    assert_eq!(
        w.as_str(),
        "\x1b[s\x1b[1 q\x1b[2 q\x1b[3 q\x1b[4 q\x1b[5 q\x1b[6 q\x1b[2 q\x1b[u"
    );
    w.clear();
    decscusr(w, 0);
    decscusr(w, 7);
    assert_eq!(w.as_str(), "\x1b[0 q");
}

#[test]
fn test_cursor_movements() {
    let mut w = String::new();
    let w = &mut w;
    cuu(w, 1);
    cud(w, 2);
    cuf(w, 30);
    cub(w, 0);
    cnl(w, 5);
    cpl(w, 0);
    cha(w, 7);
    assert_eq!(w.as_str(), "\x1b[1A\x1b[2B\x1b[30C\x1b[1D\x1b[5E\x1b[1F\x1b[7G");
    w.clear();
    cup(w, 0, 0);
    cup(w, 3, 5);
    cup(w, 4294967295, 10);
    assert_eq!(w.as_str(), "\x1b[1;1H\x1b[3;5H\x1b[4294967295;10H");
    w.clear();
    su(w, 1);
    sd(w, 0);
    sm(w, 0);
    rm(w, 25);
    dsr_request(w);
    assert_eq!(w.as_str(), "\x1b[1S\x1b[1T\x1b[0h\x1b[25l\x1b[6n");
}

#[test]
fn test_erase() {
    let mut w = String::new();
    let w = &mut w;
    ed(w, 0);
    ed(w, 3);
    ed(w, 4);
    el(w, 0);
    el(w, 2);
    el(w, 3);
    assert_eq!(w.as_str(), "\x1b[0J\x1b[3J\x1b[0K\x1b[2K");
    w.clear();
    ed(w, EdClear::EntireScreen.code());
    el(w, ElClear::FromCurToBol.code());
    decscusr(w, DecscusrStyle::SteadyBar.code());
    assert_eq!(w.as_str(), "\x1b[2J\x1b[1K\x1b[6 q");
    assert_eq!(EdClear::FromCurToEos.code(), 0);
    assert_eq!(EdClear::EntireScreenAndDeleteAllScrollBuffer.code(), 3);
    assert_eq!(ElClear::EntireLine.code(), 2);
    assert_eq!(DecscusrStyle::BlinkingBlock.code(), 1);
    assert_eq!(SgrCode::BgColorBrightWhite.code(), 107);
    assert_eq!(SgrCode::DoubleUnderline.code(), 21);
}

#[test]
fn test_dsr_report() {
    let mut report = peep::escape_seq::csi::DsrReport::new();
    let mut got = None;
    for b in "\x1b[12;345R".bytes() {
        if let Some(pos) = report.take(b) {
            got = Some(pos);
        }
    }
    assert_eq!(got, Some((12, 345)));
    let mut report = peep::escape_seq::csi::DsrReport::new();
    for b in "99999999999".bytes() {
        assert_eq!(report.take(b), None);
    }
    assert_eq!(report.take(b'R'), Some((0, 4294967295)));
}
