//! Cursor movements by whole lines and to a column.

use vstd::prelude::*;
use crate::csi::{push_numbered, sequence};
use crate::text::decimal;

verus! {

/// Moves the cursor to the start of the line `n` lines down: `ESC [ n E`.
pub open spec fn next_line_seq(n: u16) -> Seq<char> {
    sequence(decimal(n as nat), 'E')
}

/// Moves the cursor to the start of the line `n` lines up: `ESC [ n F`.
pub open spec fn previous_line_seq(n: u16) -> Seq<char> {
    sequence(decimal(n as nat), 'F')
}

/// Moves the cursor to column `n` of its line: `ESC [ n G`.
pub open spec fn horizontal_absolute_seq(n: u16) -> Seq<char> {
    sequence(decimal(n as nat), 'G')
}

/// Move cursor next line.
#[derive(Copy, Clone, PartialEq, Eq)]
pub struct NextLine(pub u16);

impl NextLine {
    /// Appends the sequence to `out`.
    pub fn write_to(&self, out: &mut String)
        ensures
            final(out)@ == old(out)@ + next_line_seq(self.0),
    {
        push_numbered(out, self.0 as u32, 'E');
    }

    /// The sequence as a string.
    pub fn to_string(&self) -> (s: String)
        ensures
            s@ == next_line_seq(self.0),
    {
        let mut s = String::new();
        self.write_to(&mut s);
        assert(s@ =~= next_line_seq(self.0));
        s
    }
}

/// Move cursor previous line.
#[derive(Copy, Clone, PartialEq, Eq)]
pub struct PreviousLine(pub u16);

impl PreviousLine {
    /// Appends the sequence to `out`.
    pub fn write_to(&self, out: &mut String)
        ensures
            final(out)@ == old(out)@ + previous_line_seq(self.0),
    {
        push_numbered(out, self.0 as u32, 'F');
    }

    /// The sequence as a string.
    pub fn to_string(&self) -> (s: String)
        ensures
            s@ == previous_line_seq(self.0),
    {
        let mut s = String::new();
        self.write_to(&mut s);
        assert(s@ =~= previous_line_seq(self.0));
        s
    }
}

/// Move cursor horizontal absolute.
#[derive(Copy, Clone, PartialEq, Eq)]
pub struct HorizontalAbsolute(pub u16);

impl HorizontalAbsolute {
    /// Appends the sequence to `out`.
    pub fn write_to(&self, out: &mut String)
        ensures
            final(out)@ == old(out)@ + horizontal_absolute_seq(self.0),
    {
        push_numbered(out, self.0 as u32, 'G');
    }

    /// The sequence as a string.
    pub fn to_string(&self) -> (s: String)
        ensures
            s@ == horizontal_absolute_seq(self.0),
    {
        let mut s = String::new();
        self.write_to(&mut s);
        assert(s@ =~= horizontal_absolute_seq(self.0));
        s
    }
}

} // verus!
