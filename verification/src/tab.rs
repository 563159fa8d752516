//! Tab expansion.
//!
//! A tab is replaced by the spaces that lead to the next tab stop. Columns
//! are display columns: a wide character moves the column by two. Control
//! characters take no column and are left out of the result.

use vstd::prelude::*;
use crate::text::{push_spaces, spaces};
use crate::width::{char_width_cjk, width_cjk};

verus! {

/// The widest tab that is expanded: a wider one counts as this.
pub const MAX_TAB_WIDTH: usize = 32;

/// The tab width that is used for a requested `tab_width`.
pub open spec fn effective_tab_width(tab_width: nat) -> nat {
    if tab_width > MAX_TAB_WIDTH {
        MAX_TAB_WIDTH as nat
    } else {
        tab_width
    }
}

/// The expansion of `s` from column `col` on, where `col` is the display
/// column modulo the tab width `tw`.
///
/// A tab becomes `tw - col` spaces and leads to column 0; with `tw == 0` it
/// vanishes. A character with a width is kept and moves the column by its
/// width. A character without a width (a control character) is dropped.
pub open spec fn expand_from(s: Seq<char>, tw: nat, col: nat) -> Seq<char>
    decreases s.len(),
{
    if s.len() == 0 {
        seq![]
    } else if s[0] == '\t' {
        if tw > 0 {
            spaces((tw - col) as nat) + expand_from(s.drop_first(), tw, 0)
        } else {
            expand_from(s.drop_first(), tw, col)
        }
    } else {
        match char_width_cjk(s[0]) {
            Some(w) => seq![s[0]] + expand_from(
                s.drop_first(),
                tw,
                if tw > 0 {
                    ((col + w) % (tw as int)) as nat
                } else {
                    col
                },
            ),
            None => expand_from(s.drop_first(), tw, col),
        }
    }
}

/// `s` with its tabs expanded to the tab width `tab_width` (at most
/// [`MAX_TAB_WIDTH`]) and its control characters dropped.
pub open spec fn expanded(s: Seq<char>, tab_width: nat) -> Seq<char> {
    expand_from(s, effective_tab_width(tab_width), 0)
}

/// An expanded line holds no tab and no control character: each of its
/// characters is a space or a character of the line that has a width.
pub proof fn lemma_expanded_is_plain(s: Seq<char>, tw: nat, col: nat)
    ensures
        forall|i: int|
            0 <= i < expand_from(s, tw, col).len() ==> {
                let c = #[trigger] expand_from(s, tw, col)[i];
                c == ' ' || (c != '\t' && char_width_cjk(c) is Some && s.contains(c))
            },
    decreases s.len(),
{
    if s.len() > 0 {
        let rest = s.drop_first();
        let out = expand_from(s, tw, col);
        assert forall|c: char| rest.contains(c) implies s.contains(c) by {
            let j = choose|j: int| 0 <= j < rest.len() && rest[j] == c;
            assert(s[j + 1] == c);
        }
        if s[0] == '\t' {
            if tw > 0 {
                lemma_expanded_is_plain(rest, tw, 0);
            } else {
                lemma_expanded_is_plain(rest, tw, col);
            }
        } else {
            match char_width_cjk(s[0]) {
                Some(w) => {
                    let next = if tw > 0 {
                        ((col + w) % (tw as int)) as nat
                    } else {
                        col
                    };
                    lemma_expanded_is_plain(rest, tw, next);
                    assert(s.contains(s[0]));
                },
                None => {
                    lemma_expanded_is_plain(rest, tw, col);
                },
            }
        }
    }
}

/// A line without tabs and control characters expands to itself.
pub proof fn lemma_expand_plain(s: Seq<char>, tw: nat, col: nat)
    requires
        forall|i: int| 0 <= i < s.len() ==> char_width_cjk(#[trigger] s[i]) is Some && s[i] != '\t',
    ensures
        expand_from(s, tw, col) == s,
    decreases s.len(),
{
    if s.len() > 0 {
        let w = char_width_cjk(s[0])->0;
        let next = if tw > 0 {
            ((col + w) % (tw as int)) as nat
        } else {
            col
        };
        assert forall|i: int| 0 <= i < s.drop_first().len() implies char_width_cjk(
            #[trigger] s.drop_first()[i],
        ) is Some && s.drop_first()[i] != '\t' by {
            assert(s.drop_first()[i] == s[i + 1]);
        }
        lemma_expand_plain(s.drop_first(), tw, next);
        assert(seq![s[0]] + s.drop_first() =~= s);
    } else {
        assert(s =~= seq![]);
    }
}

/// Appends the expansion of `s` to `out`.
pub fn push_expanded(out: &mut String, s: &str, tab_width: usize)
    ensures
        final(out)@ == old(out)@ + expanded(s@, tab_width as nat),
{
    let tw: usize = if tab_width > MAX_TAB_WIDTH {
        MAX_TAB_WIDTH
    } else {
        tab_width
    };
    let mut col: usize = 0;
    assert(s@.skip(0) =~= s@);
    for c in it: s.chars()
        invariant
            it.seq() == s@,
            tw == effective_tab_width(tab_width as nat),
            tw <= MAX_TAB_WIDTH,
            tw > 0 ==> col < tw,
            tw == 0 ==> col == 0,
            out@ + expand_from(s@.skip(it.index()), tw as nat, col as nat) == old(out)@ + expanded(
                s@,
                tab_width as nat,
            ),
    {
        let ghost rest = s@.skip(it.index());
        let ghost before = out@;
        assert(rest.len() > 0 && rest[0] == c);
        assert(rest.drop_first() =~= s@.skip(it.index() + 1));
        if c == '\t' {
            if tw > 0 {
                push_spaces(out, tw - col);
                assert(before + (spaces((tw - col) as nat) + expand_from(
                    rest.drop_first(),
                    tw as nat,
                    0,
                )) =~= out@ + expand_from(rest.drop_first(), tw as nat, 0));
                col = 0;
            }
        } else {
            match width_cjk(c) {
                Some(w) => {
                    out.push(c);
                    let ghost next: nat = if tw > 0 {
                        ((col + w) % (tw as int)) as nat
                    } else {
                        col as nat
                    };
                    assert(before + (seq![c] + expand_from(rest.drop_first(), tw as nat, next))
                        =~= out@ + expand_from(rest.drop_first(), tw as nat, next));
                    if tw > 0 {
                        col = ((col as u128 + w as u128) % (tw as u128)) as usize;
                    }
                },
                None => {},
            }
        }
    }
    assert(s@.skip(s@.len() as int) =~= seq![]);
}

/// Tab expansion of a text.
pub trait TabExpand {
    /// The characters of the text.
    spec fn text(&self) -> Seq<char>;

    /// The text with its tabs expanded to `tab_width` columns.
    fn expand_tab(&self, tab_width: usize) -> (r: String)
        ensures
            r@ == expanded(self.text(), tab_width as nat),
    ;
}

impl TabExpand for str {
    open spec fn text(&self) -> Seq<char> {
        self@
    }

    fn expand_tab(&self, tab_width: usize) -> (r: String) {
        let mut r = String::new();
        push_expanded(&mut r, self, tab_width);
        assert(r@ =~= expanded(self@, tab_width as nat));
        r
    }
}

} // verus!
