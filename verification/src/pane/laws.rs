//! What holds of a pane, whatever its state.

use vstd::prelude::*;
use crate::csi::reset_seq;
use crate::pane::view::PaneView;
use crate::pane::ScrollStep;
use crate::tab::{effective_tab_width, expanded, lemma_expand_plain};
use crate::text::{byte_len, lemma_byte_pos_bound};
use crate::unicode_divide::{cells, fit_count, lemma_fit_count_all};
use crate::width::{cell_width, char_width_cjk};

verus! {

/// Whether two panes have the same lines, sizes and options, so that the same
/// positions are open to them.
pub open spec fn same_ground(p: PaneView, q: PaneView) -> bool {
    &&& p.lines == q.lines
    &&& p.height == q.height
    &&& p.term_width == q.term_width
    &&& p.term_height == q.term_height
    &&& p.show_linenumber == q.show_linenumber
    &&& p.wraps_line == q.wraps_line
}

/// The count of the rows from the end of the buffer does not depend on the
/// position.
pub proof fn lemma_wrap_bottom_same(p: PaneView, q: PaneView, i: int, sum: int)
    requires
        same_ground(p, q),
    ensures
        p.wrap_bottom(i, sum) == q.wrap_bottom(i, sum),
    decreases i + 1,
{
    if 0 <= i < p.lines.len() && sum + p.wrapped_rows(p.lines[i]) < p.pane_height() {
        lemma_wrap_bottom_same(p, q, i - 1, sum + p.wrapped_rows(p.lines[i]));
    }
}

/// The last position does not depend on the position.
pub proof fn lemma_bottom_same(p: PaneView, q: PaneView)
    requires
        same_ground(p, q),
    ensures
        p.bottom_y() == q.bottom_y(),
{
    lemma_wrap_bottom_same(p, q, p.lines.len() - 1, 0);
}

/// The count of the rows from the end of the buffer ends at a line at or
/// above the line where it starts.
pub proof fn lemma_wrap_bottom_bound(p: PaneView, i: int, sum: int)
    ensures
        0 <= p.wrap_bottom(i, sum),
        i >= 0 ==> p.wrap_bottom(i, sum) <= i,
    decreases i + 1,
{
    if 0 <= i < p.lines.len() && sum + p.wrapped_rows(p.lines[i]) < p.pane_height() {
        lemma_wrap_bottom_bound(p, i - 1, sum + p.wrapped_rows(p.lines[i]));
    }
}

/// The last position lies in the lines: it is the index of a line, or zero.
pub proof fn lemma_bottom_in_lines(p: PaneView)
    ensures
        p.bottom_y() <= p.lines.len(),
        p.lines.len() > 0 && p.pane_height() > 0 ==> p.bottom_y() < p.lines.len(),
{
    lemma_wrap_bottom_bound(p, p.lines.len() - 1, 0);
}

/// At the bottom, scrolling down does not move the pane: after
/// `goto_bottom_of_lines`, `scroll_down` moves by zero and leaves the pane
/// as it is, whatever the step, and also where a redraw came in between.
pub proof fn lemma_scroll_down_at_bottom(p: PaneView, ss: ScrollStep)
    ensures
        p.goto_bottom_of_lines().down_distance(ss) == 0,
        p.goto_bottom_of_lines().scroll_down(ss) == p.goto_bottom_of_lines(),
        p.goto_bottom_of_lines().refresh().down_distance(ss) == 0,
        p.goto_bottom_of_lines().refresh().scroll_down(ss) == p.goto_bottom_of_lines().refresh(),
{
    reveal(PaneView::refresh);
    let q = p.goto_bottom_of_lines();
    lemma_bottom_same(p, q);
    lemma_bottom_same(p, q.refresh());
}

/// No scroll down leads beyond the last position from a position in front
/// of it, and none moves a pane that stands at or behind it.
pub proof fn lemma_scroll_down_bounds(p: PaneView, ss: ScrollStep)
    ensures
        p.down_distance(ss) <= ss.amount(p.pane_height() as int),
        p.y <= p.bottom_y() ==> p.scroll_down(ss).y <= p.bottom_y(),
        p.y >= p.bottom_y() ==> p.scroll_down(ss) == p,
{
    assert(ss.amount(p.pane_height() as int) >= 0) by {
        lemma_amount_bounds(ss, p.pane_height() as int);
    }
}

/// A step is not negative, and not larger than the product of two `u16`.
pub proof fn lemma_amount_bounds(ss: ScrollStep, page: int)
    requires
        0 <= page <= 0xffff,
    ensures
        0 <= ss.amount(page) <= 0xffff * 0xffff,
{
    match ss {
        ScrollStep::Char(n) => {},
        ScrollStep::HalfPage(n) => {
            assert(0 <= page * n <= 0xffff * 0xffff) by (nonlinear_arith)
                requires
                    0 <= page <= 0xffff,
                    0 <= n <= 0xffff,
            ;
        },
        ScrollStep::Page(n) => {
            assert(0 <= page * n <= 0xffff * 0xffff) by (nonlinear_arith)
                requires
                    0 <= page <= 0xffff,
                    0 <= n <= 0xffff,
            ;
        },
    }
}

/// The height that is set lies between one and the height of the terminal
/// less the status line, and it is the height of the pane; to set it again
/// changes nothing. This holds in a terminal of two rows or more.
pub proof fn lemma_set_height(p: PaneView, n: u16)
    requires
        p.term_height >= 2,
    ensures
        p.set_height(n).height == (if n < 1 {
            1
        } else if n > p.term_height - 1 {
            p.term_height - 1
        } else {
            n as int
        }),
        p.set_height(n).pane_size() == (p.term_width, p.set_height(n).height),
        p.set_height(n).set_height(p.set_height(n).height) == p.set_height(n),
{
}

/// Scrolling to the right and back.
///
/// Neither `scroll_right` nor the `scroll_left` that follows it moves
/// further than the step asks for. Where `scroll_right` reaches the offset
/// that it was asked for and `scroll_left` moves by the whole step, the pane
/// is back at the offset from which it started. A `scroll_right` that moves
/// by the whole step, and by more than nothing, has reached that offset.
pub proof fn lemma_scroll_right_left(p: PaneView, ss: ScrollStep)
    ensures
        ({
            let step = ss.amount(p.printable_width() as int);
            let q = p.scroll_right(ss);
            let r = q.scroll_left(ss);
            &&& 0 <= step
            &&& p.right_distance(ss) <= step
            &&& q.left_distance(ss) <= step
            &&& p.right_distance(ss) + q.left_distance(ss) <= 2 * step
            &&& (q.x == p.x + step && q.left_distance(ss) == step) ==> r.x == p.x
            &&& (p.right_distance(ss) == step && step > 0) ==> q.x == p.x + step
            &&& (p.right_distance(ss) == step && step > 0 && q.left_distance(ss) == step) ==> r
                == p
        }),
{
    lemma_amount_bounds(ss, p.printable_width() as int);
}

/// While lines are cut, the status line without a message shows the marker of
/// the end just when the last line that is shown is the last line of the
/// buffer. This holds of a buffer whose lines a `u16` can count.
pub proof fn lemma_end_marker(p: PaneView)
    requires
        !p.wraps_line,
        p.message.len() == 0,
        p.lines.len() <= u16::MAX,
    ensures
        (p.status() == crate::pane::view::end_marker()) <==> p.visible().1 == p.lines.len(),
        p.visible().1 != p.lines.len() ==> p.status().len() == 0,
{
    assert(crate::pane::view::end_marker().len() > 0);
}

/// A redraw writes to the terminal and takes note of what it wrote; the
/// lines, the position and the options stay.
pub proof fn lemma_refresh_keeps(p: PaneView)
    ensures
        p.refresh() == (PaneView { out: p.refresh().out, flushed: p.refresh().flushed, ..p }),
        p.wf() ==> p.refresh().wf(),
{
    reveal(PaneView::refresh);
}

/// The pane never stands behind its lines, and has no horizontal offset
/// while lines are wrapped: every command keeps this.
pub proof fn lemma_commands_keep_position_valid(p: PaneView, ss: ScrollStep, n: u16, b: bool)
    requires
        p.wf(),
    ensures
        p.scroll_up(ss).wf(),
        p.scroll_down(ss).wf(),
        p.goto_bottom_of_lines().wf(),
        p.scroll_left(ss).wf(),
        p.scroll_right(ss).wf(),
        p.goto_top_of_lines().wf(),
        p.goto_head_of_line().wf(),
        p.goto_tail_of_line().wf(),
        p.goto_absolute_line(n).wf(),
        p.goto_absolute_horizontal_offset(n).wf(),
        p.set_height(n).wf(),
        p.increment_height(n).wf(),
        p.decrement_height(n).wf(),
        p.set_wrap(b).wf(),
        p.refresh().wf(),
        p.quit().wf(),
{
    reveal(PaneView::refresh);
    lemma_amount_bounds(ss, p.pane_height() as int);
    lemma_amount_bounds(ss, p.printable_width() as int);
    lemma_bottom_in_lines(p);
}

/// A line that is shown as it is.
///
/// Take a line without tabs and control characters that starts with a
/// character of some width and is not wider than the text area, in a pane
/// without horizontal offset, and without highlighting or without a match
/// in the line. Whatever the tab width, its row is the line itself, between
/// the gutter with a space and the sequence that resets the styles; and
/// while lines are wrapped, it is its only row, without that sequence.
pub proof fn lemma_decorate_plain(p: PaneView, raw: Seq<char>, n: int, room: nat)
    requires
        !p.show_highlight || p.hl_ranges(raw).len() == 0,
        p.x == 0,
        forall|i: int|
            0 <= i < raw.len() ==> char_width_cjk(#[trigger] raw[i]) is Some && raw[i] != '\t',
        raw.len() > 0 ==> cell_width(raw[0]) > 0,
        cells(raw) <= p.text_width(),
        room >= 1,
    ensures
        p.decorate_trim(raw, n) == p.gutter_text(n, true) + seq![' '] + raw + reset_seq(),
        p.decorate_wrap(raw, n, room) == seq![
            p.gutter_text(n, true) + (if raw.len() > 0 {
                seq![' ']
            } else {
                seq![]
            }) + raw,
        ],
{
    let tw = effective_tab_width(p.tab_width as nat);
    lemma_expand_plain(raw, tw, 0);
    assert(expanded(raw, p.tab_width as nat) == raw);
    let d = p.divider(raw);
    assert(raw.skip(0) =~= raw);
    lemma_byte_pos_bound(raw, 0);
    if raw.len() == 0 {
        assert(p.hl_ranges(raw).len() == 0 ==> p.hl_ranges(raw) =~= seq![]);
        crate::pane::highlight::lemma_highlighted_none(raw, 0, 0);
        assert(p.body(raw, (0nat, 0nat), p.hl_ranges(raw)) == raw);
        assert(p.gutter_text(n, true) + Seq::<char>::empty() + raw =~= p.gutter_text(n, true));
        assert(p.decorate_trim(raw, n) =~= p.gutter_text(n, true) + seq![' '] + raw + reset_seq());
    } else {
        lemma_fit_count_all(raw, p.text_width());
        assert(fit_count(raw, 0) == 0);
        let sought = d.after_skip(0, 0);
        assert(sought == d);
        assert(d.next_slice() == Some(raw)) by {
            assert(raw.take(raw.len() as int) =~= raw);
        }
        let after = d.after_next();
        assert(after.pos == raw.len());
        assert(after.last_range() == (0nat, byte_len(raw)));
        assert(p.hl_ranges(raw).len() == 0 ==> p.hl_ranges(raw) =~= seq![]);
        crate::pane::highlight::lemma_highlighted_none(raw, 0, byte_len(raw) as int);
        assert(p.body(raw, after.last_range(), p.hl_ranges(raw)) == raw);
        assert(after.next_slice() is None);
        assert(p.decorate_trim(raw, n) =~= p.gutter_text(n, true) + seq![' '] + raw + reset_seq());
        let row = p.gutter_text(n, true) + seq![' '] + raw;
        assert(0 * p.text_width() == 0);
        assert(p.wrap_rows(after, n, 1, (room - 1) as nat) =~= Seq::<Seq<char>>::empty());
        assert(p.wrap_rows(d, n, 0, room) =~= seq![row]);
    }
}

} // verus!
