//! Display widths of characters and strings, as `unicode-width` gives them.

use vstd::prelude::*;

verus! {

/// What `UnicodeWidthChar::width_cjk` returns for `c`: the number of columns
/// that `c` takes in an East Asian context, or `None` for a control
/// character.
pub uninterp spec fn char_width_cjk(c: char) -> Option<usize>;

/// What `UnicodeWidthStr::width` returns for the string with the characters
/// `s`: the number of columns that the string takes outside an East Asian
/// context.
pub uninterp spec fn str_width(s: Seq<char>) -> usize;

/// The number of columns that `c` takes when it is shown: its CJK width, and
/// none for a control character.
pub open spec fn cell_width(c: char) -> nat {
    match char_width_cjk(c) {
        Some(w) => w as nat,
        None => 0,
    }
}

/// Calls `unicode_width::UnicodeWidthChar::width_cjk` on `c`. The result is a
/// function of `c` alone and goes by the name [`char_width_cjk`].
#[verifier::external_body]
pub(crate) fn width_cjk(c: char) -> (w: Option<usize>)
    ensures
        w == char_width_cjk(c),
{
    unicode_width::UnicodeWidthChar::width_cjk(c)
}

/// Calls `unicode_width::UnicodeWidthStr::width` on `s`. The result is a
/// function of the characters of `s` alone and goes by the name
/// [`str_width`].
#[verifier::external_body]
pub(crate) fn width_of_str(s: &str) -> (w: usize)
    ensures
        w == str_width(s@),
{
    unicode_width::UnicodeWidthStr::width(s)
}

/// The number of columns that `c` takes when it is shown.
pub fn cell_width_of(c: char) -> (w: usize)
    ensures
        w == cell_width(c),
{
    match width_cjk(c) {
        Some(w) => w,
        None => 0,
    }
}

} // verus!
