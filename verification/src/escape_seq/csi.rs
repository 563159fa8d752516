//! CSI (Control Sequence Introducer) escape sequences.
//!
//! Each function appends one sequence to the string it is given. What is
//! appended is stated over [`sequence`]: the introducer `ESC [`, the
//! parameters, and the final character that names the function.

use vstd::prelude::*;
use crate::csi::{introducer, push_introducer, push_numbered, sequence};
use crate::text::{decimal, push_decimal};

verus! {

/// `n`, or one where `n` is zero.
pub open spec fn nz(n: u32) -> u32 {
    if n == 0 {
        1
    } else {
        n
    }
}

/// `n`, or one where `n` is zero.
pub fn _nz(n: u32) -> (r: u32)
    ensures
        r == nz(n),
{
    if n == 0 {
        1
    } else {
        n
    }
}

/// CUU: cursor up by `n` rows; zero counts as one.
pub fn cuu(w: &mut String, n: u32)
    ensures
        final(w)@ == old(w)@ + sequence(decimal(nz(n) as nat), 'A'),
{
    push_numbered(w, _nz(n), 'A');
}

/// CUD: cursor down by `n` rows; zero counts as one.
pub fn cud(w: &mut String, n: u32)
    ensures
        final(w)@ == old(w)@ + sequence(decimal(nz(n) as nat), 'B'),
{
    push_numbered(w, _nz(n), 'B');
}

/// CUF: cursor forward by `n` columns; zero counts as one.
pub fn cuf(w: &mut String, n: u32)
    ensures
        final(w)@ == old(w)@ + sequence(decimal(nz(n) as nat), 'C'),
{
    push_numbered(w, _nz(n), 'C');
}

/// CUB: cursor back by `n` columns; zero counts as one.
pub fn cub(w: &mut String, n: u32)
    ensures
        final(w)@ == old(w)@ + sequence(decimal(nz(n) as nat), 'D'),
{
    push_numbered(w, _nz(n), 'D');
}

/// CNL: cursor to the start of the line `n` lines down; zero counts as one.
pub fn cnl(w: &mut String, n: u32)
    ensures
        final(w)@ == old(w)@ + sequence(decimal(nz(n) as nat), 'E'),
{
    push_numbered(w, _nz(n), 'E');
}

/// CPL: cursor to the start of the line `n` lines up; zero counts as one.
pub fn cpl(w: &mut String, n: u32)
    ensures
        final(w)@ == old(w)@ + sequence(decimal(nz(n) as nat), 'F'),
{
    push_numbered(w, _nz(n), 'F');
}

/// CHA: cursor to column `n` of its line; zero counts as one.
pub fn cha(w: &mut String, n: u32)
    ensures
        final(w)@ == old(w)@ + sequence(decimal(nz(n) as nat), 'G'),
{
    push_numbered(w, _nz(n), 'G');
}

/// The parameters of a cursor position: row and column, separated by `;`.
pub open spec fn position_params(row: u32, col: u32) -> Seq<char> {
    decimal(nz(row) as nat) + seq![';'] + decimal(nz(col) as nat)
}

/// CUP: cursor to `row` and `col`, both counted from one; zero counts as one.
pub fn cup(w: &mut String, row: u32, col: u32)
    ensures
        final(w)@ == old(w)@ + sequence(position_params(row, col), 'H'),
{
    push_introducer(w);
    push_decimal(w, _nz(row) as u64);
    w.push(';');
    push_decimal(w, _nz(col) as u64);
    w.push('H');
    assert(w@ =~= old(w)@ + sequence(position_params(row, col), 'H'));
}

/// What ED erases.
#[derive(Copy, Clone, Debug, PartialEq, Eq)]
pub enum EdClear {
    FromCurToEos,
    FromCurToBos,
    EntireScreen,
    EntireScreenAndDeleteAllScrollBuffer,
}

impl EdClear {
    /// The parameter that stands for this value in a control sequence.
    pub open spec fn value(self) -> nat {
        match self {
            EdClear::FromCurToEos => 0,
            EdClear::FromCurToBos => 1,
            EdClear::EntireScreen => 2,
            EdClear::EntireScreenAndDeleteAllScrollBuffer => 3,
        }
    }

    /// The parameter that stands for this value in a control sequence.
    pub fn code(&self) -> (n: u32)
        ensures
            n == self.value(),
    {
        match self {
            EdClear::FromCurToEos => 0,
            EdClear::FromCurToBos => 1,
            EdClear::EntireScreen => 2,
            EdClear::EntireScreenAndDeleteAllScrollBuffer => 3,
        }
    }
}

/// ED: erase in display. `n` is 0 (from the cursor to the end of the
/// screen), 1 (from the cursor to the beginning of the screen), 2 (the entire
/// screen) or 3 (the entire screen and the lines saved in the scrollback
/// buffer); for any other `n` nothing is appended.
pub fn ed(w: &mut String, n: u32)
    ensures
        n <= 3 ==> final(w)@ == old(w)@ + sequence(decimal(n as nat), 'J'),
        n > 3 ==> final(w)@ == old(w)@,
{
    if n <= 3 {
        push_numbered(w, n, 'J');
    }
}

/// What EL erases.
#[derive(Copy, Clone, Debug, PartialEq, Eq)]
pub enum ElClear {
    FromCurToEol,
    FromCurToBol,
    EntireLine,
}

impl ElClear {
    /// The parameter that stands for this value in a control sequence.
    pub open spec fn value(self) -> nat {
        match self {
            ElClear::FromCurToEol => 0,
            ElClear::FromCurToBol => 1,
            ElClear::EntireLine => 2,
        }
    }

    /// The parameter that stands for this value in a control sequence.
    pub fn code(&self) -> (n: u32)
        ensures
            n == self.value(),
    {
        match self {
            ElClear::FromCurToEol => 0,
            ElClear::FromCurToBol => 1,
            ElClear::EntireLine => 2,
        }
    }
}

/// EL: erase in line. `n` is 0 (from the cursor to the end of the line), 1
/// (from the cursor to the beginning of the line) or 2 (the entire line); for
/// any other `n` nothing is appended.
pub fn el(w: &mut String, n: u32)
    ensures
        n <= 2 ==> final(w)@ == old(w)@ + sequence(decimal(n as nat), 'K'),
        n > 2 ==> final(w)@ == old(w)@,
{
    if n <= 2 {
        push_numbered(w, n, 'K');
    }
}

/// SU: scroll up by `n` lines; zero counts as one.
pub fn su(w: &mut String, n: u32)
    ensures
        final(w)@ == old(w)@ + sequence(decimal(nz(n) as nat), 'S'),
{
    push_numbered(w, _nz(n), 'S');
}

/// SD: scroll down by `n` lines; zero counts as one.
pub fn sd(w: &mut String, n: u32)
    ensures
        final(w)@ == old(w)@ + sequence(decimal(nz(n) as nat), 'T'),
{
    push_numbered(w, _nz(n), 'T');
}

/// The parameters of SGR, the graphic renditions.
#[derive(Copy, Clone, Debug, PartialEq, Eq)]
pub enum SgrCode {
    Normal,
    Bold,
    Faint,
    Italic,
    Underline,
    SlowBlink,
    RapidBlink,
    Inverse,
    Invisible,
    Strikethrough,
    PrimaryFont,
    AltFont1,
    AltFont2,
    AltFont3,
    AltFont4,
    AltFont5,
    AltFont6,
    AltFont7,
    AltFont8,
    AltFont9,
    DoubleUnderline,
    BoldFaintOff,
    ItalicOff,
    UnderlineOff,
    Steady,
    Positive,
    Visible,
    StrikethroughOff,
    FgColorBlack,
    FgColorRed,
    FgColorGreen,
    FgColorYellow,
    FgColorBlue,
    FgColorMagenta,
    FgColorCyan,
    FgColorWhite,
    FgColorDefault,
    BgColorBlack,
    BgColorRed,
    BgColorGreen,
    BgColorYellow,
    BgColorBlue,
    BgColorMagenta,
    BgColorCyan,
    BgColorWhite,
    BgColorDefault,
    Frame,
    Encircle,
    Overline,
    FrameEncircleOff,
    OverlineOff,
    RightSideLine,
    RightSideDoublLine,
    LeftSideLine,
    LeftSideDoublLine,
    DoubleStrikethrough,
    LineOff,
    FgColorBrightBlack,
    FgColorBrightRed,
    FgColorBrightGreen,
    FgColorBrightYellow,
    FgColorBrightBlue,
    FgColorBrightMagenta,
    FgColorBrightCyan,
    FgColorBrightWhite,
    BgColorBrightBlack,
    BgColorBrightRed,
    BgColorBrightGreen,
    BgColorBrightYellow,
    BgColorBrightBlue,
    BgColorBrightMagenta,
    BgColorBrightCyan,
    BgColorBrightWhite,
}

impl SgrCode {
    /// The parameter that stands for this value in a control sequence.
    pub open spec fn value(self) -> nat {
        match self {
            SgrCode::Normal => 0,
            SgrCode::Bold => 1,
            SgrCode::Faint => 2,
            SgrCode::Italic => 3,
            SgrCode::Underline => 4,
            SgrCode::SlowBlink => 5,
            SgrCode::RapidBlink => 6,
            SgrCode::Inverse => 7,
            SgrCode::Invisible => 8,
            SgrCode::Strikethrough => 9,
            SgrCode::PrimaryFont => 10,
            SgrCode::AltFont1 => 11,
            SgrCode::AltFont2 => 12,
            SgrCode::AltFont3 => 13,
            SgrCode::AltFont4 => 14,
            SgrCode::AltFont5 => 15,
            SgrCode::AltFont6 => 16,
            SgrCode::AltFont7 => 17,
            SgrCode::AltFont8 => 18,
            SgrCode::AltFont9 => 19,
            SgrCode::DoubleUnderline => 21,
            SgrCode::BoldFaintOff => 22,
            SgrCode::ItalicOff => 23,
            SgrCode::UnderlineOff => 24,
            SgrCode::Steady => 25,
            SgrCode::Positive => 27,
            SgrCode::Visible => 28,
            SgrCode::StrikethroughOff => 29,
            SgrCode::FgColorBlack => 30,
            SgrCode::FgColorRed => 31,
            SgrCode::FgColorGreen => 32,
            SgrCode::FgColorYellow => 33,
            SgrCode::FgColorBlue => 34,
            SgrCode::FgColorMagenta => 35,
            SgrCode::FgColorCyan => 36,
            SgrCode::FgColorWhite => 37,
            SgrCode::FgColorDefault => 39,
            SgrCode::BgColorBlack => 40,
            SgrCode::BgColorRed => 41,
            SgrCode::BgColorGreen => 42,
            SgrCode::BgColorYellow => 43,
            SgrCode::BgColorBlue => 44,
            SgrCode::BgColorMagenta => 45,
            SgrCode::BgColorCyan => 46,
            SgrCode::BgColorWhite => 47,
            SgrCode::BgColorDefault => 49,
            SgrCode::Frame => 51,
            SgrCode::Encircle => 52,
            SgrCode::Overline => 53,
            SgrCode::FrameEncircleOff => 54,
            SgrCode::OverlineOff => 55,
            SgrCode::RightSideLine => 60,
            SgrCode::RightSideDoublLine => 61,
            SgrCode::LeftSideLine => 62,
            SgrCode::LeftSideDoublLine => 63,
            SgrCode::DoubleStrikethrough => 64,
            SgrCode::LineOff => 65,
            SgrCode::FgColorBrightBlack => 90,
            SgrCode::FgColorBrightRed => 91,
            SgrCode::FgColorBrightGreen => 92,
            SgrCode::FgColorBrightYellow => 93,
            SgrCode::FgColorBrightBlue => 94,
            SgrCode::FgColorBrightMagenta => 95,
            SgrCode::FgColorBrightCyan => 96,
            SgrCode::FgColorBrightWhite => 97,
            SgrCode::BgColorBrightBlack => 100,
            SgrCode::BgColorBrightRed => 101,
            SgrCode::BgColorBrightGreen => 102,
            SgrCode::BgColorBrightYellow => 103,
            SgrCode::BgColorBrightBlue => 104,
            SgrCode::BgColorBrightMagenta => 105,
            SgrCode::BgColorBrightCyan => 106,
            SgrCode::BgColorBrightWhite => 107,
        }
    }

    /// The parameter that stands for this value in a control sequence.
    pub fn code(&self) -> (n: u32)
        ensures
            n == self.value(),
    {
        match self {
            SgrCode::Normal => 0,
            SgrCode::Bold => 1,
            SgrCode::Faint => 2,
            SgrCode::Italic => 3,
            SgrCode::Underline => 4,
            SgrCode::SlowBlink => 5,
            SgrCode::RapidBlink => 6,
            SgrCode::Inverse => 7,
            SgrCode::Invisible => 8,
            SgrCode::Strikethrough => 9,
            SgrCode::PrimaryFont => 10,
            SgrCode::AltFont1 => 11,
            SgrCode::AltFont2 => 12,
            SgrCode::AltFont3 => 13,
            SgrCode::AltFont4 => 14,
            SgrCode::AltFont5 => 15,
            SgrCode::AltFont6 => 16,
            SgrCode::AltFont7 => 17,
            SgrCode::AltFont8 => 18,
            SgrCode::AltFont9 => 19,
            SgrCode::DoubleUnderline => 21,
            SgrCode::BoldFaintOff => 22,
            SgrCode::ItalicOff => 23,
            SgrCode::UnderlineOff => 24,
            SgrCode::Steady => 25,
            SgrCode::Positive => 27,
            SgrCode::Visible => 28,
            SgrCode::StrikethroughOff => 29,
            SgrCode::FgColorBlack => 30,
            SgrCode::FgColorRed => 31,
            SgrCode::FgColorGreen => 32,
            SgrCode::FgColorYellow => 33,
            SgrCode::FgColorBlue => 34,
            SgrCode::FgColorMagenta => 35,
            SgrCode::FgColorCyan => 36,
            SgrCode::FgColorWhite => 37,
            SgrCode::FgColorDefault => 39,
            SgrCode::BgColorBlack => 40,
            SgrCode::BgColorRed => 41,
            SgrCode::BgColorGreen => 42,
            SgrCode::BgColorYellow => 43,
            SgrCode::BgColorBlue => 44,
            SgrCode::BgColorMagenta => 45,
            SgrCode::BgColorCyan => 46,
            SgrCode::BgColorWhite => 47,
            SgrCode::BgColorDefault => 49,
            SgrCode::Frame => 51,
            SgrCode::Encircle => 52,
            SgrCode::Overline => 53,
            SgrCode::FrameEncircleOff => 54,
            SgrCode::OverlineOff => 55,
            SgrCode::RightSideLine => 60,
            SgrCode::RightSideDoublLine => 61,
            SgrCode::LeftSideLine => 62,
            SgrCode::LeftSideDoublLine => 63,
            SgrCode::DoubleStrikethrough => 64,
            SgrCode::LineOff => 65,
            SgrCode::FgColorBrightBlack => 90,
            SgrCode::FgColorBrightRed => 91,
            SgrCode::FgColorBrightGreen => 92,
            SgrCode::FgColorBrightYellow => 93,
            SgrCode::FgColorBrightBlue => 94,
            SgrCode::FgColorBrightMagenta => 95,
            SgrCode::FgColorBrightCyan => 96,
            SgrCode::FgColorBrightWhite => 97,
            SgrCode::BgColorBrightBlack => 100,
            SgrCode::BgColorBrightRed => 101,
            SgrCode::BgColorBrightGreen => 102,
            SgrCode::BgColorBrightYellow => 103,
            SgrCode::BgColorBrightBlue => 104,
            SgrCode::BgColorBrightMagenta => 105,
            SgrCode::BgColorBrightCyan => 106,
            SgrCode::BgColorBrightWhite => 107,
        }
    }
}

/// SGR: select graphic rendition.
pub fn sgr(w: &mut String, c: SgrCode)
    ensures
        final(w)@ == old(w)@ + sequence(decimal(c.value()), 'm'),
{
    push_numbered(w, c.code(), 'm');
}

/// A colour for SGR, out of 256 or as red, green and blue.
#[derive(Copy, Clone, Debug, PartialEq, Eq)]
pub enum SgrColor {
    FgColor8bit(u8),
    FgColor24bit((u8, u8, u8)),
    BgColor8bit(u8),
    BgColor24bit((u8, u8, u8)),
}

/// The parameters that select one colour out of 256: `lead ; 5 ; color`.
pub open spec fn indexed_params(lead: Seq<char>, color: u8) -> Seq<char> {
    lead + seq![';', '5', ';'] + decimal(color as nat)
}

/// The parameters that select a colour by red, green and blue:
/// `lead ; 2 ; r ; g ; b`.
pub open spec fn rgb_params(lead: Seq<char>, r: u8, g: u8, b: u8) -> Seq<char> {
    lead + seq![';', '2', ';'] + decimal(r as nat) + seq![';'] + decimal(g as nat) + seq![';']
        + decimal(b as nat)
}

impl SgrColor {
    /// The parameters of the sequence that selects this colour: they start
    /// with 38 for the foreground and with 48 for the background.
    pub open spec fn params(self) -> Seq<char> {
        match self {
            SgrColor::FgColor8bit(color) => indexed_params(seq!['3', '8'], color),
            SgrColor::FgColor24bit((r, g, b)) => rgb_params(seq!['3', '8'], r, g, b),
            SgrColor::BgColor8bit(color) => indexed_params(seq!['4', '8'], color),
            SgrColor::BgColor24bit((r, g, b)) => rgb_params(seq!['4', '8'], r, g, b),
        }
    }
}

fn push_indexed(w: &mut String, lead: char, color: u8)
    ensures
        final(w)@ == old(w)@ + indexed_params(seq![lead, '8'], color),
{
    w.push(lead);
    w.push('8');
    w.push(';');
    w.push('5');
    w.push(';');
    push_decimal(w, color as u64);
    assert(w@ =~= old(w)@ + indexed_params(seq![lead, '8'], color));
}

fn push_rgb(w: &mut String, lead: char, r: u8, g: u8, b: u8)
    ensures
        final(w)@ == old(w)@ + rgb_params(seq![lead, '8'], r, g, b),
{
    w.push(lead);
    w.push('8');
    w.push(';');
    w.push('2');
    w.push(';');
    push_decimal(w, r as u64);
    w.push(';');
    push_decimal(w, g as u64);
    w.push(';');
    push_decimal(w, b as u64);
    assert(w@ =~= old(w)@ + rgb_params(seq![lead, '8'], r, g, b));
}

/// SGR with a colour: sets the foreground or the background colour.
pub fn sgr_color(w: &mut String, c: SgrColor)
    ensures
        final(w)@ == old(w)@ + sequence(c.params(), 'm'),
{
    push_introducer(w);
    match c {
        SgrColor::FgColor8bit(color) => push_indexed(w, '3', color),
        SgrColor::FgColor24bit((r, g, b)) => push_rgb(w, '3', r, g, b),
        SgrColor::BgColor8bit(color) => push_indexed(w, '4', color),
        SgrColor::BgColor24bit((r, g, b)) => push_rgb(w, '4', r, g, b),
    }
    w.push('m');
    assert(w@ =~= old(w)@ + sequence(c.params(), 'm'));
}

/// DSR: the request for a device status report, `ESC [ 6 n`. The terminal
/// answers it with a cursor position report.
pub fn dsr_request(w: &mut String)
    ensures
        final(w)@ == old(w)@ + sequence(seq!['6'], 'n'),
{
    push_numbered(w, 6, 'n');
    assert(decimal(6) =~= seq!['6']);
}

/// The report that answers DSR, as far as it was read: `ESC [ row ; col R`.
pub struct DsrReport {
    row: u32,
    tmp: u32,
}

/// A report as far as it was read, as plain values.
pub struct DsrReportView {
    /// The row, once the `;` was read.
    pub row: u32,
    /// The number that is being read.
    pub tmp: u32,
}

/// The number after the digit with the value `d` was read behind `n`; it
/// stops at the largest `u32`.
pub open spec fn with_digit(n: u32, d: u8) -> u32 {
    if n * 10 + d > u32::MAX {
        u32::MAX
    } else {
        (n * 10 + d) as u32
    }
}

impl DsrReportView {
    /// The report after the byte `b` was read: a digit goes on the number,
    /// `;` ends the row, and any other byte is passed over.
    pub open spec fn after(self, b: u8) -> DsrReportView {
        if 0x30 <= b <= 0x39 {
            DsrReportView { tmp: with_digit(self.tmp, (b - 0x30) as u8), ..self }
        } else if b == 0x3b {
            DsrReportView { row: self.tmp, tmp: 0 }
        } else {
            self
        }
    }

    /// The position that the report gives when the byte `b` is read: with
    /// `R` the report is complete.
    pub open spec fn complete(self, b: u8) -> Option<(u32, u32)> {
        if b == 0x52 {
            Some((self.row, self.tmp))
        } else {
            None
        }
    }
}

impl View for DsrReport {
    type V = DsrReportView;

    closed spec fn view(&self) -> DsrReportView {
        DsrReportView { row: self.row, tmp: self.tmp }
    }
}

impl DsrReport {
    /// A report of which nothing was read yet.
    pub fn new() -> (r: Self)
        ensures
            r@ == (DsrReportView { row: 0, tmp: 0 }),
    {
        DsrReport { row: 0, tmp: 0 }
    }

    /// Reads the byte `b` of the report. Returns the row and the column
    /// when the report is complete.
    pub fn take(&mut self, b: u8) -> (r: Option<(u32, u32)>)
        ensures
            final(self)@ == old(self)@.after(b),
            r == old(self)@.complete(b),
    {
        if 0x30 <= b && b <= 0x39 {
            let n: u64 = self.tmp as u64 * 10 + (b - 0x30) as u64;
            self.tmp = if n > 0xffff_ffff {
                0xffff_ffff
            } else {
                n as u32
            };
            None
        } else if b == 0x3b {
            self.row = self.tmp;
            self.tmp = 0;
            None
        } else if b == 0x52 {
            Some((self.row, self.tmp))
        } else {
            None
        }
    }
}

/// SCP: save cursor position.
pub fn scp(w: &mut String)
    ensures
        final(w)@ == old(w)@ + sequence(seq![], 's'),
{
    push_introducer(w);
    w.push('s');
    assert(w@ =~= old(w)@ + sequence(seq![], 's'));
}

/// RCP: restore cursor position.
pub fn rcp(w: &mut String)
    ensures
        final(w)@ == old(w)@ + sequence(seq![], 'u'),
{
    push_introducer(w);
    w.push('u');
    assert(w@ =~= old(w)@ + sequence(seq![], 'u'));
}

/// SM: set mode `n`.
pub fn sm(w: &mut String, n: u32)
    ensures
        final(w)@ == old(w)@ + sequence(decimal(n as nat), 'h'),
{
    push_numbered(w, n, 'h');
}

/// RM: reset mode `n`.
pub fn rm(w: &mut String, n: u32)
    ensures
        final(w)@ == old(w)@ + sequence(decimal(n as nat), 'l'),
{
    push_numbered(w, n, 'l');
}

/// The cursor styles of DECSCUSR.
#[derive(Copy, Clone, Debug, PartialEq, Eq)]
pub enum DecscusrStyle {
    BlinkingBlock,
    SteadyBlock,
    BlinkingUnderline,
    SteadyUnderline,
    BlinkingBar,
    SteadyBar,
}

impl DecscusrStyle {
    /// The parameter that stands for this value in a control sequence.
    pub open spec fn value(self) -> nat {
        match self {
            DecscusrStyle::BlinkingBlock => 1,
            DecscusrStyle::SteadyBlock => 2,
            DecscusrStyle::BlinkingUnderline => 3,
            DecscusrStyle::SteadyUnderline => 4,
            DecscusrStyle::BlinkingBar => 5,
            DecscusrStyle::SteadyBar => 6,
        }
    }

    /// The parameter that stands for this value in a control sequence.
    pub fn code(&self) -> (n: u32)
        ensures
            n == self.value(),
    {
        match self {
            DecscusrStyle::BlinkingBlock => 1,
            DecscusrStyle::SteadyBlock => 2,
            DecscusrStyle::BlinkingUnderline => 3,
            DecscusrStyle::SteadyUnderline => 4,
            DecscusrStyle::BlinkingBar => 5,
            DecscusrStyle::SteadyBar => 6,
        }
    }
}

/// DECSCUSR: set cursor style. `n` is 0 or 1 (blinking block), 2 (steady
/// block), 3 (blinking underline), 4 (steady underline), 5 (blinking bar) or
/// 6 (steady bar); for any other `n` nothing is appended. The final
/// characters are a space and `q`.
pub fn decscusr(w: &mut String, n: u32)
    ensures
        n <= 6 ==> final(w)@ == old(w)@ + sequence(decimal(n as nat) + seq![' '], 'q'),
        n > 6 ==> final(w)@ == old(w)@,
{
    if n <= 6 {
        push_introducer(w);
        push_decimal(w, n as u64);
        w.push(' ');
        w.push('q');
        assert(w@ =~= old(w)@ + sequence(decimal(n as nat) + seq![' '], 'q'));
    }
}

} // verus!
