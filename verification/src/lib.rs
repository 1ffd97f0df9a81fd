//! Shared application state for a small desktop shell: a list of recorded
//! greetings and a theme preference, together with the command handlers that
//! read and change them.
//!
//! Every handler works on a [`state::State`] that the caller has already made
//! exclusive (the hosting shell keeps it in a [`state::AppState`] and locks it
//! for the length of one call), so each contract relates the state before a
//! call to the state after it.

pub mod commands;
pub mod error;
pub mod laws;
pub mod state;
