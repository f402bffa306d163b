//! Core logic of a tab-switchable terminal weather dashboard.
//!
//! The crate holds the parts of the dashboard that make decisions: the
//! wrap-around tab navigation state, the weather snapshot text cache, the
//! frame composer that turns both into a description of what to draw, and
//! the per-event step function of the session loop. Terminal handling,
//! widget rendering and the weather poller live outside, in the binary
//! that drives this library.

pub mod compose;
pub mod nav;
pub mod session;
pub mod snapshot;
pub mod text;
