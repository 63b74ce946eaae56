//! Saturating cursor navigation over a non-empty deck.
//!
//! The cursor is an index into the deck. Previous and Next move it one step
//! and saturate at the first and last card; there is no wraparound.

use vstd::prelude::*;

verus! {

/// One navigation input symbol.
#[derive(Clone, Copy, PartialEq, Eq, Structural, Debug)]
pub enum NavInput {
    Previous,
    Next,
}

/// Cursor after one Previous input: one step back, saturating at the first card.
pub open spec fn nav_prev(i: int) -> int {
    if i <= 0 {
        0
    } else {
        i - 1
    }
}

/// Cursor after one Next input on a deck of length `n`: one step forward,
/// saturating at the last card.
pub open spec fn nav_next(i: int, n: int) -> int {
    if i + 1 < n {
        i + 1
    } else {
        n - 1
    }
}

/// Cursor after one navigation input.
pub open spec fn nav_step(i: int, n: int, inp: NavInput) -> int {
    match inp {
        NavInput::Previous => nav_prev(i),
        NavInput::Next => nav_next(i, n),
    }
}

/// Cursor after a whole sequence of navigation inputs, applied in order.
pub open spec fn nav_run(i: int, n: int, inputs: Seq<NavInput>) -> int
    decreases inputs.len(),
{
    if inputs.len() == 0 {
        i
    } else {
        nav_run(nav_step(i, n, inputs[0]), n, inputs.drop_first())
    }
}

/// One step back, saturating at index 0.
pub fn prev_index(i: usize) -> (r: usize)
    ensures
        r as int == nav_prev(i as int),
{
    if i == 0 {
        0
    } else {
        i - 1
    }
}

/// One step forward on a deck of length `n`, saturating at index `n - 1`.
pub fn next_index(i: usize, n: usize) -> (r: usize)
    requires
        1 <= n,
        i < n,
    ensures
        r as int == nav_next(i as int, n as int),
{
    if i + 1 < n {
        i + 1
    } else {
        n - 1
    }
}

/// On a deck of length `n >= 1`, a cursor that starts in bounds stays within
/// `[0, n-1]` under any sequence of Previous/Next inputs: no wraparound, no
/// underflow or overflow.
pub proof fn lemma_nav_run_in_bounds(i: int, n: int, inputs: Seq<NavInput>)
    requires
        1 <= n,
        0 <= i < n,
    ensures
        0 <= nav_run(i, n, inputs) < n,
    decreases inputs.len(),
{
    if inputs.len() > 0 {
        lemma_nav_run_in_bounds(nav_step(i, n, inputs[0]), n, inputs.drop_first());
    }
}

/// From the first card, any number of Previous inputs leaves the cursor at
/// index 0.
pub proof fn lemma_previous_saturates_at_first(n: int, inputs: Seq<NavInput>)
    requires
        1 <= n,
        forall|k: int| 0 <= k < inputs.len() ==> inputs[k] == NavInput::Previous,
    ensures
        nav_run(0, n, inputs) == 0,
    decreases inputs.len(),
{
    if inputs.len() > 0 {
        assert(inputs[0] == NavInput::Previous);
        lemma_previous_saturates_at_first(n, inputs.drop_first());
    }
}

/// From the last card, any number of Next inputs leaves the cursor at index
/// `n - 1`.
pub proof fn lemma_next_saturates_at_last(n: int, inputs: Seq<NavInput>)
    requires
        1 <= n,
        forall|k: int| 0 <= k < inputs.len() ==> inputs[k] == NavInput::Next,
    ensures
        nav_run(n - 1, n, inputs) == n - 1,
    decreases inputs.len(),
{
    if inputs.len() > 0 {
        assert(inputs[0] == NavInput::Next);
        lemma_next_saturates_at_last(n, inputs.drop_first());
    }
}

} // verus!
