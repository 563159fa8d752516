//! Cursor style

use vstd::prelude::*;
use crate::csi::{push_introducer, sequence};

verus! {

/// The sequence that sets the cursor style with the number `digit`:
/// `ESC [ digit SP q`.
pub open spec fn style_seq(digit: char) -> Seq<char> {
    sequence(seq![digit, ' '], 'q')
}

/// Appends the sequence that sets the cursor style with the number `digit`.
fn push_style(out: &mut String, digit: char)
    ensures
        final(out)@ == old(out)@ + style_seq(digit),
{
    push_introducer(out);
    out.push(digit);
    out.push(' ');
    out.push('q');
    assert(out@ =~= old(out)@ + style_seq(digit));
}

/// Set the cursor style blinking block
#[derive(Copy, Clone)]
pub struct BlinkingBlock;

impl BlinkingBlock {
    /// Appends the sequence to `out`.
    pub fn write_to(&self, out: &mut String)
        ensures
            final(out)@ == old(out)@ + style_seq('1'),
    {
        push_style(out, '1');
    }

    /// The sequence as a string.
    pub fn to_string(&self) -> (s: String)
        ensures
            s@ == style_seq('1'),
    {
        let mut s = String::new();
        push_style(&mut s, '1');
        assert(s@ =~= style_seq('1'));
        s
    }
}

/// Set the cursor style steady block
#[derive(Copy, Clone)]
pub struct SteadyBlock;

impl SteadyBlock {
    /// Appends the sequence to `out`.
    pub fn write_to(&self, out: &mut String)
        ensures
            final(out)@ == old(out)@ + style_seq('2'),
    {
        push_style(out, '2');
    }

    /// The sequence as a string.
    pub fn to_string(&self) -> (s: String)
        ensures
            s@ == style_seq('2'),
    {
        let mut s = String::new();
        push_style(&mut s, '2');
        assert(s@ =~= style_seq('2'));
        s
    }
}

/// Set the cursor style blinking underline
#[derive(Copy, Clone)]
pub struct BlinkingUnderline;

impl BlinkingUnderline {
    /// Appends the sequence to `out`.
    pub fn write_to(&self, out: &mut String)
        ensures
            final(out)@ == old(out)@ + style_seq('3'),
    {
        push_style(out, '3');
    }

    /// The sequence as a string.
    pub fn to_string(&self) -> (s: String)
        ensures
            s@ == style_seq('3'),
    {
        let mut s = String::new();
        push_style(&mut s, '3');
        assert(s@ =~= style_seq('3'));
        s
    }
}

/// Set the cursor style steady underline
#[derive(Copy, Clone)]
pub struct SteadyUnderline;

impl SteadyUnderline {
    /// Appends the sequence to `out`.
    pub fn write_to(&self, out: &mut String)
        ensures
            final(out)@ == old(out)@ + style_seq('4'),
    {
        push_style(out, '4');
    }

    /// The sequence as a string.
    pub fn to_string(&self) -> (s: String)
        ensures
            s@ == style_seq('4'),
    {
        let mut s = String::new();
        push_style(&mut s, '4');
        assert(s@ =~= style_seq('4'));
        s
    }
}

/// Set the cursor style blinking bar
#[derive(Copy, Clone)]
pub struct BlinkingBar;

impl BlinkingBar {
    /// Appends the sequence to `out`.
    pub fn write_to(&self, out: &mut String)
        ensures
            final(out)@ == old(out)@ + style_seq('5'),
    {
        push_style(out, '5');
    }

    /// The sequence as a string.
    pub fn to_string(&self) -> (s: String)
        ensures
            s@ == style_seq('5'),
    {
        let mut s = String::new();
        push_style(&mut s, '5');
        assert(s@ =~= style_seq('5'));
        s
    }
}

/// Set the cursor style steady bar
#[derive(Copy, Clone)]
pub struct SteadyBar;

impl SteadyBar {
    /// Appends the sequence to `out`.
    pub fn write_to(&self, out: &mut String)
        ensures
            final(out)@ == old(out)@ + style_seq('6'),
    {
        push_style(out, '6');
    }

    /// The sequence as a string.
    pub fn to_string(&self) -> (s: String)
        ensures
            s@ == style_seq('6'),
    {
        let mut s = String::new();
        push_style(&mut s, '6');
        assert(s@ =~= style_seq('6'));
        s
    }
}

} // verus!
