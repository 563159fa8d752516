//! Control sequences for the terminal.
//!
//! Every sequence starts with the control sequence introducer, `ESC [`. The
//! sequences for styles and colours come from `termion`; those that move the
//! cursor by lines are built in [`cursor_ext`], and those that set the style
//! of the cursor in [`cursor_style`].

use vstd::prelude::*;
use vstd::string::*;
use crate::text::{decimal, push_decimal};

pub mod cursor_ext;
pub mod cursor_style;

verus! {

/// The control sequence introducer, `ESC [`.
pub open spec fn introducer() -> Seq<char> {
    seq!['\x1b', '[']
}

/// The sequence made of the introducer, the parameters `body` and the final
/// character `fin`.
pub open spec fn sequence(body: Seq<char>, fin: char) -> Seq<char> {
    introducer() + body + seq![fin]
}

/// Resets every style and colour: `ESC [ m`.
pub open spec fn reset_seq() -> Seq<char> {
    sequence(seq![], 'm')
}

/// Switches to inverse video: `ESC [ 7 m`.
pub open spec fn invert_seq() -> Seq<char> {
    sequence(seq!['7'], 'm')
}

/// Clears the line the cursor is on: `ESC [ 2 K`.
pub open spec fn clear_line_seq() -> Seq<char> {
    sequence(seq!['2'], 'K')
}

/// Sets the foreground colour to light black: `ESC [ 38 ; 5 ; 8 m`.
pub open spec fn fg_light_black_seq() -> Seq<char> {
    sequence(seq!['3', '8', ';', '5', ';', '8'], 'm')
}

/// What `termion::style::Reset` displays: `ESC [ m`.
#[verifier::external_body]
pub(crate) fn style_reset() -> (s: String)
    ensures
        s@ == reset_seq(),
{
    format!("{}", termion::style::Reset)
}

/// What `termion::style::Invert` displays: `ESC [ 7 m`.
#[verifier::external_body]
pub(crate) fn style_invert() -> (s: String)
    ensures
        s@ == invert_seq(),
{
    format!("{}", termion::style::Invert)
}

/// What `termion::clear::CurrentLine` displays: `ESC [ 2 K`.
#[verifier::external_body]
pub(crate) fn clear_current_line() -> (s: String)
    ensures
        s@ == clear_line_seq(),
{
    format!("{}", termion::clear::CurrentLine)
}

/// What `termion::color::Fg(termion::color::LightBlack)` displays:
/// `ESC [ 38 ; 5 ; 8 m`.
#[verifier::external_body]
pub(crate) fn fg_light_black() -> (s: String)
    ensures
        s@ == fg_light_black_seq(),
{
    format!("{}", termion::color::Fg(termion::color::LightBlack))
}

/// Appends the introducer to `out`.
pub fn push_introducer(out: &mut String)
    ensures
        final(out)@ == old(out)@ + introducer(),
{
    out.push('\x1b');
    out.push('[');
    assert(out@ =~= old(out)@ + introducer());
}

/// Appends the sequence with the single numeric parameter `n` and the final
/// character `fin` to `out`.
pub fn push_numbered(out: &mut String, n: u32, fin: char)
    ensures
        final(out)@ == old(out)@ + sequence(decimal(n as nat), fin),
{
    push_introducer(out);
    push_decimal(out, n as u64);
    out.push(fin);
    assert(out@ =~= old(out)@ + sequence(decimal(n as nat), fin));
}

} // verus!
