//! The render plan of one frame.
//!
//! Every tick the pipeline produces the full list of buffered drawing
//! commands for the selected card: clear the frame, draw the title block
//! when a title is present, draw the horizontal separator, then every
//! content line at its row. The unverified front end only replays these
//! commands against the terminal and flushes them at the end of the tick,
//! so no partial frame is observable between ticks. A content line whose
//! row would not be addressable by the terminal (beyond the largest cell
//! coordinate) is omitted rather than wrapped around. The card's number is
//! carried through the deck but deliberately never drawn: showing it is an
//! absent feature, not an oversight.

use vstd::prelude::*;
use crate::card::{Card, lemma_sum_prefix_nonneg, sum_lens};
use crate::layout::{
    FrameState, LayoutResult, anchor_y_spec, compute_layout, est_height_spec, layout_spec,
    title_pad, wrap_width_spec,
};
use vstd::arithmetic::div_mod::lemma_div_pos_is_pos;

verus! {

/// One buffered drawing command.
#[derive(PartialEq, Debug)]
pub enum RenderOp {
    /// Clear the whole frame.
    ClearAll,
    /// Move the draw cursor to column `x`, row `y`.
    MoveTo(u16, u16),
    /// Emit text at the draw cursor.
    Text(String),
    /// Emit a horizontal rule spanning the given number of columns.
    Rule(u16),
}

/// The mathematical image of one drawing command: text as a character
/// sequence.
pub enum OpView {
    ClearAll,
    MoveTo(u16, u16),
    Text(Seq<char>),
    Rule(u16),
}

impl View for RenderOp {
    type V = OpView;

    open spec fn view(&self) -> OpView {
        match self {
            RenderOp::ClearAll => OpView::ClearAll,
            RenderOp::MoveTo(x, y) => OpView::MoveTo(*x, *y),
            RenderOp::Text(s) => OpView::Text(s@),
            RenderOp::Rule(n) => OpView::Rule(*n),
        }
    }
}

/// The images of a sequence of drawing commands.
pub open spec fn ops_view(ops: Seq<RenderOp>) -> Seq<OpView> {
    ops.map_values(|op: RenderOp| op@)
}

/// The command(s) that draw content line `i` of `lines` at column `x`, row
/// `base + i`: none when that row is beyond the largest addressable cell.
pub open spec fn line_op(lines: Seq<String>, x: u16, base: int, i: int) -> Seq<OpView> {
    if base + i <= u16::MAX {
        seq![OpView::MoveTo(x, (base + i) as u16), OpView::Text(lines[i]@)]
    } else {
        Seq::empty()
    }
}

/// The commands that draw the content lines with indices below `k`.
pub open spec fn line_ops_upto(lines: Seq<String>, x: u16, base: int, k: int) -> Seq<OpView>
    decreases k,
{
    if k <= 0 {
        Seq::empty()
    } else {
        line_ops_upto(lines, x, base, k - 1) + line_op(lines, x, base, k - 1)
    }
}

/// The commands before the content lines: clear the frame, draw the title
/// block when a title is present, and draw the separator rule immediately
/// below the title row region.
pub open spec fn head_ops(f: FrameState, c: Card) -> Seq<OpView> {
    let l = layout_spec(f, c);
    let rule = OpView::Rule((f.width as int - f.width as int / 4) as u16);
    match c.title {
        Option::Some(t) => seq![
            OpView::ClearAll,
            OpView::MoveTo(l.anchor_x, l.anchor_y),
            OpView::Text(t@),
            OpView::MoveTo(l.anchor_x, (l.anchor_y + 1) as u16),
            rule,
        ],
        Option::None => seq![
            OpView::ClearAll,
            OpView::MoveTo(l.anchor_x, l.anchor_y),
            rule,
        ],
    }
}

/// The whole render plan of card `c` in frame `f`: the head commands, then
/// every content line at column `anchor_x`, starting two rows below the
/// anchor when a title is present and at the anchor row otherwise.
pub open spec fn plan_spec(f: FrameState, c: Card) -> Seq<OpView> {
    head_ops(f, c) + line_ops_upto(
        c.content@,
        layout_spec(f, c).anchor_x,
        layout_spec(f, c).anchor_y + title_pad(c),
        c.content@.len() as int,
    )
}

/// The estimated height of a card layout is never negative, so the vertical
/// anchor stays within the upper half of the frame.
proof fn lemma_anchor_y_bounds(f: FrameState, c: Card)
    ensures
        0 <= anchor_y_spec(f, c) <= f.height as int / 2,
        0 <= est_height_spec(f, c),
{
    lemma_sum_prefix_nonneg(c.content@, c.content@.len() as int);
    lemma_div_pos_is_pos(sum_lens(c.content@), wrap_width_spec(f.width as int));
}

/// Builds the render plan of `card` in `frame`: the commands are exactly
/// `plan_spec(*frame, *card)`, in order.
pub fn build_plan(frame: &FrameState, card: &Card) -> (ops: Vec<RenderOp>)
    requires
        card.fits(),
    ensures
        ops_view(ops@) == plan_spec(*frame, *card),
{
    let l: LayoutResult = compute_layout(frame, card);
    proof {
        lemma_anchor_y_bounds(*frame, *card);
    }
    let mut ops: Vec<RenderOp> = Vec::new();
    ops.push(RenderOp::ClearAll);
    ops.push(RenderOp::MoveTo(l.anchor_x, l.anchor_y));
    let toff: u16 = match &card.title {
        Option::Some(t) => {
            ops.push(RenderOp::Text(t.clone()));
            ops.push(RenderOp::MoveTo(l.anchor_x, l.anchor_y + 1));
            2
        },
        Option::None => 0,
    };
    ops.push(RenderOp::Rule(frame.width - frame.width / 4));
    let base: usize = l.anchor_y as usize + toff as usize;
    proof {
        assert(ops_view(ops@) =~= head_ops(*frame, *card) + line_ops_upto(
            card.content@,
            l.anchor_x,
            base as int,
            0,
        ));
    }
    let mut i: usize = 0;
    while i < card.content.len()
        invariant
            card.fits(),
            l == layout_spec(*frame, *card),
            base as int == l.anchor_y as int + title_pad(*card),
            base <= u16::MAX,
            0 <= i <= card.content@.len(),
            ops_view(ops@) == head_ops(*frame, *card) + line_ops_upto(
                card.content@,
                l.anchor_x,
                base as int,
                i as int,
            ),
        decreases card.content@.len() - i,
    {
        let ghost pre = ops@;
        let ghost goal = head_ops(*frame, *card) + line_ops_upto(
            card.content@,
            l.anchor_x,
            base as int,
            i as int + 1,
        );
        proof {
            assert(line_ops_upto(card.content@, l.anchor_x, base as int, i as int + 1)
                == line_ops_upto(card.content@, l.anchor_x, base as int, i as int) + line_op(
                card.content@,
                l.anchor_x,
                base as int,
                i as int,
            ));
        }
        if i <= u16::MAX as usize - base {
            let row: u16 = (base + i) as u16;
            ops.push(RenderOp::MoveTo(l.anchor_x, row));
            ops.push(RenderOp::Text(card.content[i].clone()));
            proof {
                let n: int = ops@.len() as int;
                assert(goal.len() == n) by {
                    assert(ops_view(pre).len() == pre.len());
                };
                assert forall|k: int| 0 <= k < n implies ops_view(ops@)[k] == goal[k] by {
                    if k < n - 2 {
                        assert(ops@[k] == pre[k]);
                        assert(ops_view(pre)[k] == pre[k]@);
                        assert(goal[k] == ops_view(pre)[k]);
                    } else if k == n - 2 {
                        assert(ops_view(ops@)[k] == OpView::MoveTo(l.anchor_x, row));
                    } else {
                        assert(ops_view(ops@)[k] == OpView::Text(card.content@[i as int]@));
                    }
                };
                assert(ops_view(ops@) =~= goal);
            }
        } else {
            proof {
                assert(line_op(card.content@, l.anchor_x, base as int, i as int)
                    == Seq::<OpView>::empty());
                assert(ops_view(ops@) =~= goal);
            }
        }
        i = i + 1;
    }
    ops
}

} // verus!
