//! The event-driven viewing session.
//!
//! A `Viewer` owns the deck, the cursor of the navigation controller, the
//! frame dimensions, and the raw-input-mode obligation of the terminal.
//! Each tick the front end drains every pending event, applies the batch in
//! arrival order through `apply_events`, and only then builds and replays
//! one render plan, so a render always reflects the final state of the
//! batch, never an intermediate one. The session ends exactly on the quit
//! key, and ending it releases the raw-mode obligation.

use vstd::prelude::*;
use crate::card::Card;
use crate::layout::FrameState;
use crate::nav::{nav_next, nav_prev, next_index, prev_index};
use crate::render::{RenderOp, build_plan, ops_view, plan_spec};

verus! {

/// One key of the keyboard surface. Any key the viewer does not react to is
/// `Other`.
#[derive(Clone, Copy, PartialEq, Eq, Structural, Debug)]
pub enum Key {
    Left,
    Right,
    Backspace,
    Enter,
    Tab,
    BackTab,
    Char(char),
    Other,
}

/// What a key means to the navigation controller.
#[derive(Clone, Copy, PartialEq, Eq, Structural, Debug)]
pub enum Action {
    Previous,
    Next,
    Quit,
    Ignore,
}

/// One notification drained from the terminal: a key press, a resize with
/// the newly reported dimensions, or anything else.
#[derive(Clone, Copy, PartialEq, Eq, Structural, Debug)]
pub enum Event {
    Key(Key),
    Resize(u16, u16),
    Other,
}

/// What the front end must do after a batch of events: keep ticking, or end
/// the session.
#[derive(Clone, Copy, PartialEq, Eq, Structural, Debug)]
pub enum Directive {
    Continue,
    Exit,
}

/// Why a viewer could not be created.
#[derive(Clone, Copy, PartialEq, Eq, Structural, Debug)]
pub enum ViewerError {
    /// The deck holds no card at all.
    EmptyDeck,
}

/// The meaning of each key: Left, Backspace and Shift-Tab step back; Right,
/// Enter and Tab step forward; 'q' quits; every other key is ignored.
pub open spec fn action_of(k: Key) -> Action {
    match k {
        Key::Left | Key::Backspace | Key::BackTab => Action::Previous,
        Key::Right | Key::Enter | Key::Tab => Action::Next,
        Key::Char(c) => if c == 'q' {
            Action::Quit
        } else {
            Action::Ignore
        },
        Key::Other => Action::Ignore,
    }
}

/// Maps a key to its navigation action.
pub fn classify_key(k: &Key) -> (a: Action)
    ensures
        a == action_of(*k),
{
    match k {
        Key::Left | Key::Backspace | Key::BackTab => Action::Previous,
        Key::Right | Key::Enter | Key::Tab => Action::Next,
        Key::Char(c) => if *c == 'q' {
            Action::Quit
        } else {
            Action::Ignore
        },
        Key::Other => Action::Ignore,
    }
}

/// The state of one viewing session.
pub struct Viewer {
    /// The deck, immutable for the lifetime of the session.
    pub deck: Vec<Card>,
    /// Index of the selected card; always within the deck.
    pub cursor: usize,
    /// Terminal dimensions, updated only by resize notifications.
    pub frame: FrameState,
    /// Whether the session still holds the terminal's raw input mode. Held
    /// from creation until the session ends; the front end mirrors it onto
    /// the real terminal.
    pub raw_mode: bool,
}

impl Viewer {
    /// The session invariant: a non-empty deck and an in-bounds cursor.
    pub open spec fn wf(self) -> bool {
        1 <= self.deck@.len() && (self.cursor as int) < self.deck@.len()
    }

    /// The state and directive after one event. A resize replaces the frame
    /// dimensions exactly and touches nothing else; a key acts through its
    /// navigation action; everything else is a no-op.
    pub open spec fn step_spec(self, ev: Event) -> (Viewer, Directive) {
        match ev {
            Event::Resize(w, h) => (
                Viewer { frame: FrameState { width: w, height: h }, ..self },
                Directive::Continue,
            ),
            Event::Key(k) => match action_of(k) {
                Action::Previous => (
                    Viewer { cursor: nav_prev(self.cursor as int) as usize, ..self },
                    Directive::Continue,
                ),
                Action::Next => (
                    Viewer {
                        cursor: nav_next(self.cursor as int, self.deck@.len() as int) as usize,
                        ..self
                    },
                    Directive::Continue,
                ),
                Action::Quit => (Viewer { raw_mode: false, ..self }, Directive::Exit),
                Action::Ignore => (self, Directive::Continue),
            },
            Event::Other => (self, Directive::Continue),
        }
    }

    /// The state and directive after a whole batch of events, applied in
    /// arrival order; the batch stops at the first quit.
    pub open spec fn run_spec(self, evs: Seq<Event>) -> (Viewer, Directive)
        decreases evs.len(),
    {
        if evs.len() == 0 {
            (self, Directive::Continue)
        } else {
            let sd = self.step_spec(evs[0]);
            if sd.1 is Exit {
                sd
            } else {
                sd.0.run_spec(evs.drop_first())
            }
        }
    }

    /// Creates a session on `deck`, viewing its first card in a frame of
    /// the given dimensions, holding the raw-mode obligation. An empty deck
    /// is rejected, and nothing else is.
    pub fn new(deck: Vec<Card>, width: u16, height: u16) -> (r: Result<Viewer, ViewerError>)
        ensures
            r is Ok <==> deck@.len() >= 1,
            r matches Err(e) ==> e == ViewerError::EmptyDeck,
            r matches Ok(v) ==> {
                &&& v.deck == deck
                &&& v.cursor == 0
                &&& v.frame == (FrameState { width, height })
                &&& v.raw_mode
                &&& v.wf()
            },
    {
        if deck.len() == 0 {
            Err(ViewerError::EmptyDeck)
        } else {
            Ok(Viewer { deck, cursor: 0, frame: FrameState { width, height }, raw_mode: true })
        }
    }

    /// Applies one event: the new state and the directive are exactly
    /// `step_spec`.
    pub fn handle_event(&mut self, ev: &Event) -> (d: Directive)
        requires
            old(self).wf(),
        ensures
            final(self).wf(),
            (*final(self), d) == old(self).step_spec(*ev),
    {
        match ev {
            Event::Resize(w, h) => {
                self.frame.resize(*w, *h);
                Directive::Continue
            },
            Event::Key(k) => {
                match classify_key(k) {
                    Action::Previous => {
                        self.cursor = prev_index(self.cursor);
                        Directive::Continue
                    },
                    Action::Next => {
                        self.cursor = next_index(self.cursor, self.deck.len());
                        Directive::Continue
                    },
                    Action::Quit => {
                        self.raw_mode = false;
                        Directive::Exit
                    },
                    Action::Ignore => Directive::Continue,
                }
            },
            Event::Other => Directive::Continue,
        }
    }

    /// Applies a whole batch of drained events in arrival order, stopping
    /// at the first quit: the new state and the directive are exactly
    /// `run_spec`.
    pub fn apply_events(&mut self, evs: &Vec<Event>) -> (d: Directive)
        requires
            old(self).wf(),
        ensures
            final(self).wf(),
            (*final(self), d) == old(self).run_spec(evs@),
    {
        let mut i: usize = 0;
        proof {
            assert(evs@.skip(0) =~= evs@);
        }
        while i < evs.len()
            invariant
                self.wf(),
                0 <= i <= evs@.len(),
                old(self).run_spec(evs@) == self.run_spec(evs@.skip(i as int)),
            decreases evs@.len() - i,
        {
            proof {
                assert(evs@.skip(i as int)[0] == evs@[i as int]);
                assert(evs@.skip(i as int).drop_first() =~= evs@.skip(i as int + 1));
            }
            let d = self.handle_event(&evs[i]);
            if let Directive::Exit = d {
                return Directive::Exit;
            }
            i = i + 1;
        }
        proof {
            assert(evs@.skip(evs@.len() as int) =~= Seq::<Event>::empty());
        }
        Directive::Continue
    }

    /// The selected card.
    pub fn current_card(&self) -> (c: &Card)
        requires
            self.wf(),
        ensures
            *c == self.deck@[self.cursor as int],
    {
        &self.deck[self.cursor]
    }

    /// Builds the render plan of the selected card in the current frame: a
    /// pure function of the state at the moment of the call, so a plan
    /// built after an event reflects it and a plan built before does not.
    pub fn render_plan(&self) -> (ops: Vec<RenderOp>)
        requires
            self.wf(),
            self.deck@[self.cursor as int].fits(),
        ensures
            ops_view(ops@) == plan_spec(self.frame, self.deck@[self.cursor as int]),
    {
        build_plan(&self.frame, &self.deck[self.cursor])
    }
}

/// Any batch of events keeps the session invariant: the cursor stays within
/// the deck, whatever arrives, and the deck itself is never changed.
pub proof fn lemma_run_preserves_wf(v: Viewer, evs: Seq<Event>)
    requires
        v.wf(),
    ensures
        v.run_spec(evs).0.wf(),
        v.run_spec(evs).0.deck == v.deck,
    decreases evs.len(),
{
    if evs.len() > 0 {
        let sd = v.step_spec(evs[0]);
        if !(sd.1 is Exit) {
            lemma_run_preserves_wf(sd.0, evs.drop_first());
        }
    }
}

/// From the first card, a batch made only of keys that mean Previous
/// leaves the cursor on the first card.
pub proof fn lemma_previous_keys_stay_at_first(v: Viewer, evs: Seq<Event>)
    requires
        v.wf(),
        v.cursor == 0,
        forall|k: int|
            0 <= k < evs.len() ==> ((#[trigger] evs[k]) matches Event::Key(key)
                && action_of(key) == Action::Previous),
    ensures
        v.run_spec(evs).0.cursor == 0,
    decreases evs.len(),
{
    if evs.len() > 0 {
        assert(evs[0] matches Event::Key(key) && action_of(key) == Action::Previous);
        lemma_previous_keys_stay_at_first(v.step_spec(evs[0]).0, evs.drop_first());
    }
}

/// From the last card, a batch made only of keys that mean Next leaves the
/// cursor on the last card.
pub proof fn lemma_next_keys_stay_at_last(v: Viewer, evs: Seq<Event>)
    requires
        v.wf(),
        v.cursor as int == v.deck@.len() - 1,
        forall|k: int|
            0 <= k < evs.len() ==> ((#[trigger] evs[k]) matches Event::Key(key)
                && action_of(key) == Action::Next),
    ensures
        v.run_spec(evs).0.cursor as int == v.deck@.len() - 1,
    decreases evs.len(),
{
    if evs.len() > 0 {
        assert(evs[0] matches Event::Key(key) && action_of(key) == Action::Next);
        lemma_next_keys_stay_at_last(v.step_spec(evs[0]).0, evs.drop_first());
    }
}

/// A resize notification replaces the frame dimensions exactly with the
/// reported ones and touches nothing else: deck, cursor and raw mode are
/// unchanged and the session continues, so only plans built afterwards see
/// the new frame.
pub proof fn lemma_resize_exact(v: Viewer, w: u16, h: u16)
    ensures
        v.step_spec(Event::Resize(w, h)).0.frame == (FrameState { width: w, height: h }),
        v.step_spec(Event::Resize(w, h)).0.cursor == v.cursor,
        v.step_spec(Event::Resize(w, h)).0.deck == v.deck,
        v.step_spec(Event::Resize(w, h)).0.raw_mode == v.raw_mode,
        v.step_spec(Event::Resize(w, h)).1 is Continue,
{
}

/// Ending the session always releases the raw-mode obligation, and nothing
/// but ending it changes the obligation: a batch that exits leaves raw mode
/// off, a batch that continues leaves it as it was.
pub proof fn lemma_exit_releases_raw_mode(v: Viewer, evs: Seq<Event>)
    ensures
        v.run_spec(evs).1 is Exit ==> !v.run_spec(evs).0.raw_mode,
        v.run_spec(evs).1 is Continue ==> v.run_spec(evs).0.raw_mode == v.raw_mode,
    decreases evs.len(),
{
    if evs.len() > 0 {
        let sd = v.step_spec(evs[0]);
        if !(sd.1 is Exit) {
            lemma_exit_releases_raw_mode(sd.0, evs.drop_first());
        }
    }
}

} // verus!
