//! The highlight overlay: the matches of a search, shown in inverse video.
//!
//! A line is shown as a slice of it, and the matches are known as byte
//! offsets into the whole line. Each match is cut to the slice, and what is
//! left of it is put between the sequences that switch inverse video on and
//! off. The text outside the matches stays as it is.

use vstd::prelude::*;
use vstd::string::*;
use crate::csi::{invert_seq, reset_seq, style_invert, style_reset};
use crate::text::{byte_len, char_len, push_range, utf8_len};

verus! {

/// The number of leading characters of `s` that end within the first `off`
/// bytes. Where `off` is the byte offset of a character, this is the index
/// of that character.
pub open spec fn chars_before(s: Seq<char>, off: int) -> nat
    decreases s.len(),
{
    if s.len() == 0 {
        0
    } else if char_len(s[0]) > off {
        0
    } else {
        1 + chars_before(s.drop_first(), off - char_len(s[0]))
    }
}

/// The characters of `s` between the byte offsets `a` and `b`; none where
/// `b` lies in front of `a`.
pub open spec fn cut(s: Seq<char>, a: int, b: int) -> Seq<char> {
    if a <= b {
        s.subrange(chars_before(s, a) as int, chars_before(s, b) as int)
    } else {
        seq![]
    }
}

/// A text in inverse video.
pub open spec fn inverted(s: Seq<char>) -> Seq<char> {
    invert_seq() + s + reset_seq()
}

/// The length of a slice from the byte offset `t0` to `t1` of its line.
pub open spec fn span(t0: int, t1: int) -> int {
    if t1 >= t0 {
        t1 - t0
    } else {
        0
    }
}

/// The slice `trimmed`, which goes from the byte offset `t0` to `t1` of its
/// line, from its byte offset `copied` on, with the matches `ranges[i..]`
/// highlighted. The matches are byte offsets into the line, in order.
///
/// There are five cases for a match. One that ends in front of the slice is
/// passed over. One that covers the slice highlights it as a whole, and one
/// that reaches into it from the left highlights its beginning up to the
/// end of the match. One that lies inside is highlighted, behind the text
/// since the last match. One that reaches out of the slice to the right is
/// highlighted up to the end of the slice, and ends the work; so does one
/// that starts behind the slice, in front of which the rest of the slice is
/// copied.
pub open spec fn highlighted_from(
    trimmed: Seq<char>,
    t0: int,
    t1: int,
    ranges: Seq<(usize, usize)>,
    i: int,
    copied: int,
) -> Seq<char>
    decreases ranges.len() - i,
{
    let end = span(t0, t1);
    if i < 0 || i >= ranges.len() {
        if copied < end {
            cut(trimmed, copied, end)
        } else {
            seq![]
        }
    } else {
        let s = ranges[i].0 as int;
        let e = ranges[i].1 as int;
        if e < t0 {
            highlighted_from(trimmed, t0, t1, ranges, i + 1, copied)
        } else if s <= t0 && e >= t1 {
            inverted(trimmed)
        } else if s <= t0 && e > t0 {
            inverted(cut(trimmed, 0, e - t0)) + highlighted_from(
                trimmed,
                t0,
                t1,
                ranges,
                i + 1,
                e - t0,
            )
        } else if s >= t0 && e <= t1 {
            cut(trimmed, copied, s - t0) + inverted(cut(trimmed, s - t0, e - t0))
                + highlighted_from(trimmed, t0, t1, ranges, i + 1, e - t0)
        } else if s < t1 && e >= t1 {
            cut(trimmed, copied, s - t0) + inverted(cut(trimmed, s - t0, end))
        } else if s > t1 {
            cut(trimmed, copied, end)
        } else {
            highlighted_from(trimmed, t0, t1, ranges, i + 1, copied)
        }
    }
}

/// The slice `trimmed`, which goes from the byte offset `t0` to `t1` of its
/// line, with the matches `ranges` highlighted.
pub open spec fn highlighted(trimmed: Seq<char>, t0: int, t1: int, ranges: Seq<(usize, usize)>) -> Seq<
    char,
> {
    highlighted_from(trimmed, t0, t1, ranges, 0, 0)
}

/// An offset further on has no fewer characters in front of it.
pub proof fn lemma_chars_before_monotonic(s: Seq<char>, a: int, b: int)
    requires
        a <= b,
    ensures
        chars_before(s, a) <= chars_before(s, b),
    decreases s.len(),
{
    if s.len() > 0 && char_len(s[0]) <= a {
        lemma_chars_before_monotonic(s.drop_first(), a - char_len(s[0]), b - char_len(s[0]));
    }
}

/// In front of the byte length of a text lie all its characters, and in
/// front of offset zero none: a cut from zero to the byte length is the
/// whole text.
pub proof fn lemma_cut_all(s: Seq<char>, b: int)
    requires
        b >= byte_len(s),
    ensures
        chars_before(s, b) == s.len(),
        chars_before(s, 0) == 0,
        cut(s, 0, b) == s,
    decreases s.len(),
{
    if s.len() > 0 {
        let rest = s.drop_first();
        assert(s =~= seq![s[0]] + rest);
        crate::text::lemma_byte_len_concat(seq![s[0]], rest);
        assert(seq![s[0]] =~= Seq::<char>::empty().push(s[0]));
        crate::text::lemma_byte_len_push(Seq::<char>::empty(), s[0]);
        lemma_cut_all(rest, b - char_len(s[0]));
    }
    assert(s.subrange(0, s.len() as int) =~= s);
}

/// Without matches a slice stays as it is.
pub proof fn lemma_highlighted_none(trimmed: Seq<char>, t0: int, t1: int)
    requires
        span(t0, t1) == byte_len(trimmed),
    ensures
        highlighted(trimmed, t0, t1, seq![]) == trimmed,
{
    lemma_cut_all(trimmed, span(t0, t1));
    if span(t0, t1) == 0 {
        crate::text::lemma_byte_len_bounds(trimmed);
        assert(trimmed =~= seq![]);
    }
}

/// A slice with one match from `s` to `e`, case by case.
///
/// A match that ends in front of the slice or starts behind it leaves the
/// slice as it is. A match that covers the slice puts all of it in inverse
/// video. A match that reaches into the slice from the left puts its
/// beginning in inverse video, up to the end of the match. A match inside
/// the slice stands in inverse video between the text in front of it and the
/// text behind it. A match that reaches out of the slice to the right puts
/// its end in inverse video, from the start of the match on.
pub proof fn lemma_highlighted_single(trimmed: Seq<char>, t0: int, t1: int, s: usize, e: usize)
    requires
        0 <= t0 <= t1,
        s <= e,
    ensures
        ({
            let end = t1 - t0;
            let tail = |from: int|
                if from < end {
                    cut(trimmed, from, end)
                } else {
                    Seq::<char>::empty()
                };
            let shown = highlighted(trimmed, t0, t1, seq![(s, e)]);
            &&& e < t0 ==> shown == tail(0)
            &&& s > t1 ==> shown == cut(trimmed, 0, end)
            &&& (s <= t0 && e >= t1) ==> shown == inverted(trimmed)
            &&& (s <= t0 && t0 < e < t1) ==> shown == inverted(cut(trimmed, 0, e - t0)) + tail(
                e - t0,
            )
            &&& (t0 < s && e <= t1) ==> shown == cut(trimmed, 0, s - t0) + inverted(
                cut(trimmed, s - t0, e - t0),
            ) + tail(e - t0)
            &&& (t0 < s < t1 && e > t1) ==> shown == cut(trimmed, 0, s - t0) + inverted(
                cut(trimmed, s - t0, end),
            )
        }),
{
    let ranges = seq![(s, e)];
    assert(ranges[0] == (s, e));
    assert(ranges.len() == 1);
    reveal_with_fuel(highlighted_from, 3);
    let end = t1 - t0;
    let shown = highlighted(trimmed, t0, t1, ranges);
    let rest = highlighted_from(trimmed, t0, t1, ranges, 1, e - t0);
    if e < t0 {
        assert(shown == highlighted_from(trimmed, t0, t1, ranges, 1, 0));
    } else if s <= t0 && e >= t1 {
    } else if s <= t0 && e > t0 {
        assert(shown == inverted(cut(trimmed, 0, e - t0)) + rest);
    } else if s >= t0 && e <= t1 {
        assert(shown == cut(trimmed, 0, s - t0) + inverted(cut(trimmed, s - t0, e - t0)) + rest);
    }
}

/// The number of leading characters of `v` that end within the first `off`
/// bytes.
pub fn count_before(v: &Vec<char>, off: usize) -> (k: usize)
    ensures
        k == chars_before(v@, off as int),
        k <= v.len(),
{
    let mut k: usize = 0;
    let mut pos: usize = 0;
    assert(v@.skip(0) =~= v@);
    while k < v.len()
        invariant
            k <= v.len(),
            pos <= off,
            k + chars_before(v@.skip(k as int), off - pos) == chars_before(v@, off as int),
        decreases v.len() - k,
    {
        let n = utf8_len(v[k]);
        proof {
            let s = v@.skip(k as int);
            assert(s[0] == v@[k as int]);
            assert(s.drop_first() =~= v@.skip(k + 1));
        }
        if n > off - pos {
            return k;
        }
        pos = pos + n;
        k = k + 1;
    }
    k
}

/// Appends the characters of `v` between the byte offsets `a` and `b` to
/// `out`.
pub fn push_cut(out: &mut String, v: &Vec<char>, a: usize, b: usize)
    ensures
        final(out)@ == old(out)@ + cut(v@, a as int, b as int),
{
    if a <= b {
        let from = count_before(v, a);
        let to = count_before(v, b);
        proof {
            lemma_chars_before_monotonic(v@, a as int, b as int);
        }
        push_range(out, v, from, to);
    } else {
        assert(out@ + Seq::<char>::empty() =~= out@);
    }
}

/// Appends the characters of `v` between the byte offsets `a` and `b` to
/// `out`, in inverse video.
pub fn push_inverted_cut(out: &mut String, v: &Vec<char>, a: usize, b: usize)
    ensures
        final(out)@ == old(out)@ + inverted(cut(v@, a as int, b as int)),
{
    let on = style_invert();
    out.append(on.as_str());
    push_cut(out, v, a, b);
    let off = style_reset();
    out.append(off.as_str());
    assert(out@ =~= old(out)@ + inverted(cut(v@, a as int, b as int)));
}

/// Appends the slice `trimmed` of a line to `out`, with the matches
/// `hlranges` highlighted. The slice goes from the byte offset `trimrange.0`
/// to `trimrange.1` of the line, and the matches are byte offsets into the
/// line, in order.
pub fn push_highlighted(
    out: &mut String,
    trimmed: &Vec<char>,
    trimrange: &(usize, usize),
    hlranges: &[(usize, usize)],
)
    ensures
        final(out)@ == old(out)@ + highlighted(
            trimmed@,
            trimrange.0 as int,
            trimrange.1 as int,
            hlranges@,
        ),
{
    let t0 = trimrange.0;
    let t1 = trimrange.1;
    let end: usize = if t1 >= t0 {
        t1 - t0
    } else {
        0
    };
    let ghost whole = highlighted(trimmed@, t0 as int, t1 as int, hlranges@);
    let mut copied: usize = 0;
    let mut i: usize = 0;
    assert(out@ + whole =~= old(out)@ + whole);
    while i < hlranges.len()
        invariant
            i <= hlranges.len(),
            t0 == trimrange.0,
            t1 == trimrange.1,
            end == span(t0 as int, t1 as int),
            whole == highlighted(trimmed@, t0 as int, t1 as int, hlranges@),
            out@ + highlighted_from(
                trimmed@,
                t0 as int,
                t1 as int,
                hlranges@,
                i as int,
                copied as int,
            ) == old(out)@ + whole,
        decreases hlranges.len() - i,
    {
        let hl_s = hlranges[i].0;
        let hl_e = hlranges[i].1;
        let ghost before = out@;
        let ghost rest = highlighted_from(
            trimmed@,
            t0 as int,
            t1 as int,
            hlranges@,
            i as int,
            copied as int,
        );
        if hl_e < t0 {
            i = i + 1;
        } else if hl_s <= t0 && hl_e >= t1 {
            let on = style_invert();
            out.append(on.as_str());
            push_range(out, trimmed, 0, trimmed.len());
            let off = style_reset();
            out.append(off.as_str());
            assert(trimmed@.subrange(0, trimmed.len() as int) =~= trimmed@);
            assert(out@ =~= before + inverted(trimmed@));
            return ;
        } else if hl_s <= t0 && hl_e > t0 {
            push_inverted_cut(out, trimmed, 0, hl_e - t0);
            copied = hl_e - t0;
            i = i + 1;
            assert(before + rest =~= out@ + highlighted_from(
                trimmed@,
                t0 as int,
                t1 as int,
                hlranges@,
                i as int,
                copied as int,
            ));
        } else if hl_s >= t0 && hl_e <= t1 {
            push_cut(out, trimmed, copied, hl_s - t0);
            push_inverted_cut(out, trimmed, hl_s - t0, hl_e - t0);
            copied = hl_e - t0;
            i = i + 1;
            assert(before + rest =~= out@ + highlighted_from(
                trimmed@,
                t0 as int,
                t1 as int,
                hlranges@,
                i as int,
                copied as int,
            ));
        } else if hl_s < t1 && hl_e >= t1 {
            push_cut(out, trimmed, copied, hl_s - t0);
            push_inverted_cut(out, trimmed, hl_s - t0, end);
            assert(out@ =~= before + rest);
            return ;
        } else if hl_s > t1 {
            push_cut(out, trimmed, copied, end);
            return ;
        } else {
            i = i + 1;
        }
    }
    if copied < end {
        push_cut(out, trimmed, copied, end);
    } else {
        assert(out@ + Seq::<char>::empty() =~= out@);
    }
}

} // verus!
