//! Core state machine of a multi-tab terminal dashboard.
//!
//! The library owns the application model: tab navigation with wraparound,
//! a saturating demo counter, and a character-safe single-line input editor
//! with a cursor and a submission history. An external event source and an
//! external renderer sit around it; the dispatcher maps one input event to
//! exactly one state transition.

/// Application state: navigation, counter, input editor, statistics snapshot.
pub mod app;

/// Event dispatcher: maps one key event to one state transition.
pub mod handler;
