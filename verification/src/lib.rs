//! Core of a single-card-at-a-time terminal flashcard viewer.
//!
//! The library holds the verified logic of the viewer: classifying raw text
//! lines into cards, the saturating navigation state machine over a deck,
//! the layout arithmetic that centers a card inside an arbitrary terminal
//! frame, the per-tick render plan, and the event-driven session that ties
//! them together. Terminal I/O itself (raw mode, polling, drawing) is left
//! to a thin unverified front end that consumes the plans produced here.

pub mod card;
pub mod layout;
pub mod nav;
pub mod render;
pub mod session;
