//! Division of a line into slices of a bounded display width.

use vstd::prelude::*;
use crate::text::{
    byte_len, byte_pos, lemma_byte_len_push, lemma_byte_pos_increasing, push_range, str_byte_len,
    to_chars, utf8_len,
};
use crate::width::{cell_width, cell_width_of};

verus! {

/// The number of leading characters of `s` that fit into `w` columns: the
/// characters in front of the first one with which the width of the prefix
/// goes beyond `w`.
pub open spec fn fit_count(s: Seq<char>, w: nat) -> nat
    decreases s.len(),
{
    if s.len() == 0 {
        0
    } else if cell_width(s[0]) > w {
        0
    } else {
        1 + fit_count(s.drop_first(), (w - cell_width(s[0])) as nat)
    }
}

/// The leading characters of `s` that fit into `w` columns.
pub open spec fn fit_prefix(s: Seq<char>, w: nat) -> Seq<char> {
    s.take(fit_count(s, w) as int)
}

/// The sum of the widths of the characters of `s`.
pub open spec fn cells(s: Seq<char>) -> nat
    decreases s.len(),
{
    if s.len() == 0 {
        0
    } else {
        cell_width(s[0]) + cells(s.drop_first())
    }
}

/// No more characters fit than there are.
pub proof fn lemma_fit_count_bound(s: Seq<char>, w: nat)
    ensures
        fit_count(s, w) <= s.len(),
    decreases s.len(),
{
    if s.len() > 0 && cell_width(s[0]) <= w {
        lemma_fit_count_bound(s.drop_first(), (w - cell_width(s[0])) as nat);
    }
}

/// The characters that fit are not wider than the bound.
pub proof fn lemma_fit_prefix_width(s: Seq<char>, w: nat)
    ensures
        cells(fit_prefix(s, w)) <= w,
    decreases s.len(),
{
    if s.len() > 0 && cell_width(s[0]) <= w {
        let rest = s.drop_first();
        let room = (w - cell_width(s[0])) as nat;
        lemma_fit_prefix_width(rest, room);
        lemma_fit_count_bound(rest, room);
        assert(fit_prefix(s, w).drop_first() =~= fit_prefix(rest, room));
    } else {
        assert(fit_prefix(s, w) =~= Seq::<char>::empty());
    }
}

/// A line that is not wider than the bound fits as a whole.
pub proof fn lemma_fit_count_all(s: Seq<char>, w: nat)
    requires
        cells(s) <= w,
    ensures
        fit_count(s, w) == s.len(),
    decreases s.len(),
{
    if s.len() > 0 {
        lemma_fit_count_all(s.drop_first(), (w - cell_width(s[0])) as nat);
    }
}

/// A slice and what is left behind it make up what was left before: no
/// character is lost, and none comes twice.
pub proof fn lemma_next_keeps_text(d: Division)
    requires
        d.wf(),
    ensures
        d.after_next().wf(),
        d.after_next().text == d.text,
        match d.next_slice() {
            Some(slice) => slice + d.after_next().rest() == d.rest() && cells(slice) <= d.width,
            None => d.rest().len() == 0 && d.after_next() == d,
        },
{
    if d.pos < d.text.len() {
        let rest = d.rest();
        lemma_fit_count_bound(rest, d.width);
        lemma_fit_prefix_width(rest, d.width);
        let n = fit_count(rest, d.width) as int;
        assert(rest.take(n) + d.text.skip(d.pos + n) =~= rest);
    }
}

/// Count unicode chars: those of `v` from `from` on that fit into `w`
/// columns. Returns their number and the number of bytes that they take.
fn unicode_index_of_width(v: &Vec<char>, from: usize, w: u64) -> (r: (usize, usize))
    requires
        from <= v.len(),
        byte_len(v@) <= usize::MAX,
    ensures
        r.0 == fit_count(v@.skip(from as int), w as nat),
        from + r.0 <= v.len(),
        r.1 == byte_len(v@.subrange(from as int, from + r.0)),
{
    let mut i: usize = from;
    let mut room: u64 = w;
    let mut bytes: usize = 0;
    while i < v.len()
        invariant
            from <= i <= v.len(),
            (i - from) + fit_count(v@.skip(i as int), room as nat) == fit_count(
                v@.skip(from as int),
                w as nat,
            ),
            bytes == byte_len(v@.subrange(from as int, i as int)),
            byte_len(v@) <= usize::MAX,
        decreases v.len() - i,
    {
        let c = v[i];
        let cw = cell_width_of(c);
        proof {
            let s = v@.skip(i as int);
            assert(s[0] == c);
            assert(s.drop_first() =~= v@.skip(i + 1));
            assert(v@.subrange(from as int, i + 1) =~= v@.subrange(from as int, i as int).push(c));
            lemma_byte_len_push(v@.subrange(from as int, i as int), c);
            lemma_byte_pos_increasing(v@, from as int, i + 1);
            lemma_byte_pos_increasing(v@, i + 1, v@.len() as int);
            assert(v@.take(v@.len() as int) =~= v@);
        }
        if cw as u64 > room {
            return (i - from, bytes);
        }
        room = room - cw as u64;
        bytes = bytes + utf8_len(c);
        i = i + 1;
    }
    (i - from, bytes)
}

/// Where a seek starts and how many columns it skips.
pub enum SeekFrom {
    /// Skips the given number of columns from the start of the line.
    Start(u64),
    /// Not supported.
    End(i64),
    /// Skips the given number of columns from the current position. A
    /// negative number counts as the unsigned number with the same 64 bits.
    Current(i64),
}

/// Why a seek was refused.
#[derive(Copy, Clone, Debug, PartialEq, Eq)]
pub enum SeekError {
    /// A seek from the end of the line was asked for.
    EndNotSupported,
}

/// The number of columns that `SeekFrom::Current(n)` skips.
pub open spec fn offset_width(n: i64) -> nat {
    if n >= 0 {
        n as nat
    } else {
        (n + 0x1_0000_0000_0000_0000) as nat
    }
}

/// What a divider is: a line, the bound on the width of a slice, and the
/// last slice that was taken, as the character indices of its two ends.
pub struct Division {
    /// The characters of the line.
    pub text: Seq<char>,
    /// The character index at which the last slice starts.
    pub prev: int,
    /// The character index at which the last slice ends and the next starts.
    pub pos: int,
    /// The number of columns that a slice may take.
    pub width: nat,
}

impl Division {
    /// Both indices lie in the line, in order.
    pub open spec fn wf(self) -> bool {
        0 <= self.prev <= self.pos <= self.text.len()
    }

    /// What is left of the line.
    pub open spec fn rest(self) -> Seq<char> {
        self.text.skip(self.pos)
    }

    /// The byte offsets of the two ends of the last slice.
    pub open spec fn last_range(self) -> (nat, nat) {
        (byte_pos(self.text, self.prev), byte_pos(self.text, self.pos))
    }

    /// The next slice: what fits of the rest of the line, or `None` at the
    /// end of the line.
    pub open spec fn next_slice(self) -> Option<Seq<char>> {
        if self.pos >= self.text.len() {
            None
        } else {
            Some(fit_prefix(self.rest(), self.width))
        }
    }

    /// The divider after the next slice was taken.
    pub open spec fn after_next(self) -> Division {
        if self.pos >= self.text.len() {
            self
        } else {
            Division {
                prev: self.pos,
                pos: self.pos + fit_count(self.rest(), self.width),
                ..self
            }
        }
    }

    /// The divider after `cols` columns were skipped from the character
    /// index `from` on. Nothing changes where nothing is left at `from`.
    pub open spec fn after_skip(self, from: int, cols: nat) -> Division {
        if from >= self.text.len() {
            self
        } else {
            let pos = from + fit_count(self.text.skip(from), cols);
            Division { prev: pos, pos: pos, ..self }
        }
    }

    /// The number of bytes that a skip of `cols` columns from the character
    /// index `from` passes over.
    pub open spec fn skipped_bytes(self, from: int, cols: nat) -> nat {
        if from >= self.text.len() {
            0
        } else {
            byte_len(fit_prefix(self.text.skip(from), cols))
        }
    }

    /// The divider after a seek.
    pub open spec fn after_seek(self, sf: SeekFrom) -> Division {
        match sf {
            SeekFrom::Start(n) => self.after_skip(0, n as nat),
            SeekFrom::End(_) => self,
            SeekFrom::Current(n) => self.after_skip(self.pos, offset_width(n)),
        }
    }

    /// What a seek returns.
    pub open spec fn seek_result(self, sf: SeekFrom) -> Result<u64, SeekError> {
        match sf {
            SeekFrom::Start(n) => Ok(self.skipped_bytes(0, n as nat) as u64),
            SeekFrom::End(_) => Err(SeekError::EndNotSupported),
            SeekFrom::Current(n) => Ok(self.skipped_bytes(self.pos, offset_width(n)) as u64),
        }
    }
}

/// A place in a line: a character index and the byte offset that goes with
/// it.
#[derive(Copy, Clone)]
struct Mark {
    idx: usize,
    pos: usize,
}

/// Unicode String Divider
pub struct UnicodeStrDivider {
    inner: Vec<char>,
    prev: Mark,
    cur: Mark,
    width: usize,
}

impl View for UnicodeStrDivider {
    type V = Division;

    closed spec fn view(&self) -> Division {
        Division {
            text: self.inner@,
            prev: self.prev.idx as int,
            pos: self.cur.idx as int,
            width: self.width as nat,
        }
    }
}

impl UnicodeStrDivider {
    #[verifier::type_invariant]
    spec fn inv(&self) -> bool {
        &&& self.prev.idx <= self.cur.idx <= self.inner.len()
        &&& byte_len(self.inner@) <= usize::MAX
        &&& self.prev.pos == byte_pos(self.inner@, self.prev.idx as int)
        &&& self.cur.pos == byte_pos(self.inner@, self.cur.idx as int)
    }

    /// A divider at the start of `line` that takes slices of at most `width`
    /// columns.
    pub fn new(line: &str, width: usize) -> (d: Self)
        ensures
            d@ == (Division { text: line@, prev: 0, pos: 0, width: width as nat }),
            d@.wf(),
    {
        let inner = to_chars(line);
        let _ = str_byte_len(line);
        assert(inner@.take(0) =~= Seq::<char>::empty());
        Self { inner, prev: Mark { idx: 0, pos: 0 }, cur: Mark { idx: 0, pos: 0 }, width }
    }

    /// Changes the bound on the width of a slice.
    pub fn set_width(&mut self, width: usize)
        ensures
            final(self)@ == (Division { width: width as nat, ..old(self)@ }),
    {
        proof {
            use_type_invariant(&*self);
        }
        self.width = width;
    }

    /// The byte offsets of the two ends of the last slice.
    pub fn last_range(&self) -> (r: (usize, usize))
        ensures
            r.0 == self@.last_range().0,
            r.1 == self@.last_range().1,
            self@.wf(),
    {
        proof {
            use_type_invariant(self);
        }
        (self.prev.pos, self.cur.pos)
    }

    /// Takes the next slice: the characters of the rest of the line that fit
    /// into the width. At the end of the line there is none, and nothing
    /// changes.
    pub fn next(&mut self) -> (r: Option<String>)
        ensures
            final(self)@ == old(self)@.after_next(),
            final(self)@.wf(),
            match r {
                Some(s) => old(self)@.next_slice() == Some(s@),
                None => old(self)@.next_slice() is None,
            },
    {
        proof {
            use_type_invariant(&*self);
        }
        let start = self.cur;
        if start.idx >= self.inner.len() {
            return None;
        }
        let (n, bytes) = unicode_index_of_width(&self.inner, start.idx, self.width as u64);
        let mut s = String::new();
        push_range(&mut s, &self.inner, start.idx, start.idx + n);
        proof {
            let rest = self.inner@.skip(start.idx as int);
            assert(s@ =~= fit_prefix(rest, self.width as nat));
            lemma_byte_pos_increasing(self.inner@, start.idx as int, start.idx + n);
            lemma_byte_pos_increasing(self.inner@, start.idx + n, self.inner@.len() as int);
            assert(self.inner@.take(self.inner@.len() as int) =~= self.inner@);
        }
        self.prev = start;
        self.cur = Mark { idx: start.idx + n, pos: start.pos + bytes };
        Some(s)
    }

    /// Skips `cols` columns from the character index `from` on, which is at
    /// the byte offset `from_pos`, and returns the number of bytes passed.
    fn skip_from(&mut self, from: usize, from_pos: usize, cols: u64) -> (dist: u64)
        requires
            from <= old(self)@.text.len(),
            from_pos == byte_pos(old(self)@.text, from as int),
        ensures
            final(self)@ == old(self)@.after_skip(from as int, cols as nat),
            dist == old(self)@.skipped_bytes(from as int, cols as nat),
    {
        proof {
            use_type_invariant(&*self);
        }
        if from >= self.inner.len() {
            return 0;
        }
        let (n, bytes) = unicode_index_of_width(&self.inner, from, cols);
        proof {
            let rest = self.inner@.skip(from as int);
            assert(self.inner@.subrange(from as int, from + n) =~= fit_prefix(rest, cols as nat));
            lemma_byte_pos_increasing(self.inner@, from as int, from + n);
            lemma_byte_pos_increasing(self.inner@, from + n, self.inner@.len() as int);
            assert(self.inner@.take(self.inner@.len() as int) =~= self.inner@);
        }
        let target = Mark { idx: from + n, pos: from_pos + bytes };
        if target.idx >= self.cur.idx {
            self.cur = target;
            self.prev = target;
        } else {
            self.prev = target;
            self.cur = target;
        }
        bytes as u64
    }

    /// Moves the position by display columns. From the start of the line or
    /// from the current position, the characters that fit into the given
    /// number of columns are passed over, and the number of bytes passed is
    /// returned; the last slice is then empty. A seek from the end is
    /// refused.
    pub fn seek(&mut self, sf: SeekFrom) -> (r: Result<u64, SeekError>)
        ensures
            final(self)@ == old(self)@.after_seek(sf),
            r == old(self)@.seek_result(sf),
    {
        proof {
            use_type_invariant(&*self);
        }
        match sf {
            SeekFrom::Start(n) => {
                assert(self.inner@.take(0) =~= Seq::<char>::empty());
                let dist = self.skip_from(0, 0, n);
                Ok(dist)
            },
            SeekFrom::End(_) => Err(SeekError::EndNotSupported),
            SeekFrom::Current(n) => {
                let cols: u64 = if n >= 0 {
                    n as u64
                } else {
                    u64::MAX - ((-(n + 1)) as u64)
                };
                let dist = self.skip_from(self.cur.idx, self.cur.pos, cols);
                Ok(dist)
            },
        }
    }
}

} // verus!
