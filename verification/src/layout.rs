//! Layout of one card inside a terminal frame.
//!
//! Given the frame dimensions and the selected card, the layout engine
//! computes an anchor point and an estimated rendered height so that the
//! card appears vertically centered. Content is assumed to wrap within
//! roughly half the frame width minus a fixed margin; the wrap width is
//! clamped to at least one column so that a degenerate frame never causes
//! a division by zero, and the anchor is clamped to the top of the frame
//! when the estimated height exceeds half the frame height.

use vstd::prelude::*;
use vstd::arithmetic::div_mod::{lemma_div_nonincreasing, lemma_div_pos_is_pos};
use vstd::string::StrSliceExecFns;
use crate::card::{Card, lemma_sum_prefix_mono, lemma_sum_prefix_nonneg, sum_lens, sum_prefix};

verus! {

/// Terminal dimensions in character cells, updated only by resize
/// notifications.
#[derive(Clone, Copy, PartialEq, Eq, Structural, Debug)]
pub struct FrameState {
    pub width: u16,
    pub height: u16,
}

impl FrameState {
    pub fn new(width: u16, height: u16) -> (f: FrameState)
        ensures
            f.width == width,
            f.height == height,
    {
        FrameState { width, height }
    }

    /// A resize notification sets the dimensions exactly to the reported
    /// values; nothing else about the viewer is touched here.
    pub fn resize(&mut self, width: u16, height: u16)
        ensures
            final(self).width == width,
            final(self).height == height,
    {
        self.width = width;
        self.height = height;
    }
}

/// Where and how large a card is drawn, recomputed fresh every tick.
#[derive(Clone, Copy, PartialEq, Eq, Structural, Debug)]
pub struct LayoutResult {
    pub anchor_x: u16,
    pub anchor_y: u16,
    pub estimated_height: usize,
}

/// Usable text column width: half the frame width minus a margin of 4,
/// clamped to at least 1 so a degenerate frame never divides by zero.
pub open spec fn wrap_width_spec(width: int) -> int {
    if width / 2 - 4 >= 1 {
        width / 2 - 4
    } else {
        1
    }
}

/// Rows reserved for the title block: two when a title is present.
pub open spec fn title_pad(c: Card) -> int {
    if c.title is Some {
        2
    } else {
        0
    }
}

/// Estimated wrapped line count: summed content length divided by the wrap
/// width.
pub open spec fn est_lines_spec(f: FrameState, c: Card) -> int {
    sum_lens(c.content@) / wrap_width_spec(f.width as int)
}

/// Estimated rendered height: wrapped lines, the title block, and 4 rows of
/// fixed padding for borders and spacing.
pub open spec fn est_height_spec(f: FrameState, c: Card) -> int {
    est_lines_spec(f, c) + title_pad(c) + 4
}

/// Horizontal anchor: half of a quarter of the frame width.
pub open spec fn anchor_x_spec(f: FrameState) -> int {
    (f.width as int / 4) / 2
}

/// Vertical anchor: half the frame height minus the estimated height,
/// clamped to the top row when the estimate exceeds half the height.
pub open spec fn anchor_y_spec(f: FrameState, c: Card) -> int {
    if f.height as int / 2 >= est_height_spec(f, c) {
        f.height as int / 2 - est_height_spec(f, c)
    } else {
        0
    }
}

/// The layout of card `c` in frame `f`.
pub open spec fn layout_spec(f: FrameState, c: Card) -> LayoutResult {
    LayoutResult {
        anchor_x: anchor_x_spec(f) as u16,
        anchor_y: anchor_y_spec(f, c) as u16,
        estimated_height: est_height_spec(f, c) as usize,
    }
}

/// Usable text column width for a frame of width `width`, at least 1.
pub fn wrap_width(width: u16) -> (w: u16)
    ensures
        w as int == wrap_width_spec(width as int),
        1 <= w,
{
    let half: u16 = width / 2;
    if half >= 5 {
        half - 4
    } else {
        1
    }
}

/// Computes the layout of `card` in `frame`: the result is exactly
/// `layout_spec(*frame, *card)`, whatever the frame dimensions.
pub fn compute_layout(frame: &FrameState, card: &Card) -> (r: LayoutResult)
    requires
        card.fits(),
    ensures
        r == layout_spec(*frame, *card),
{
    let ww: u16 = wrap_width(frame.width);
    let mut total: usize = 0;
    let mut i: usize = 0;
    while i < card.content.len()
        invariant
            0 <= i <= card.content@.len(),
            total == sum_prefix(card.content@, i as int),
            card.fits(),
        decreases card.content@.len() - i,
    {
        let l: usize = card.content[i].as_str().unicode_len();
        proof {
            lemma_sum_prefix_mono(card.content@, i + 1, card.content@.len() as int);
        }
        total = total + l;
        i = i + 1;
    }
    let est: usize = total / (ww as usize);
    proof {
        lemma_div_nonincreasing(total as int, ww as int);
    }
    let pad: usize = if card.title.is_some() {
        2
    } else {
        0
    };
    let eh: usize = est + pad + 4;
    let half_h: u16 = frame.height / 2;
    let anchor_y: u16 = if half_h as usize >= eh {
        half_h - (eh as u16)
    } else {
        0
    };
    LayoutResult { anchor_x: (frame.width / 4) / 2, anchor_y, estimated_height: eh }
}

/// The layout engine is a pure function of frame and card: identical inputs
/// always produce identical anchors and heights.
pub proof fn lemma_layout_deterministic(f: FrameState, c: Card, r1: LayoutResult, r2: LayoutResult)
    requires
        r1 == layout_spec(f, c),
        r2 == layout_spec(f, c),
    ensures
        r1 == r2,
{
}

/// On any frame with positive dimensions, degenerate widths included, the
/// anchor lies inside the frame: no division error and no underflow can put
/// it outside.
pub proof fn lemma_layout_anchor_in_frame(f: FrameState, c: Card)
    requires
        1 <= f.width,
        1 <= f.height,
    ensures
        0 <= layout_spec(f, c).anchor_x < f.width,
        0 <= layout_spec(f, c).anchor_y < f.height,
{
    lemma_sum_prefix_nonneg(c.content@, c.content@.len() as int);
    lemma_div_pos_is_pos(sum_lens(c.content@), wrap_width_spec(f.width as int));
}

} // verus!
