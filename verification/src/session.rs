//! The session loop's decision logic. The loop itself — terminal setup,
//! drawing, blocking on input — lives in the binary that drives this
//! library; each iteration it calls `ui` to refresh the snapshot and compose
//! the frame, then hands the next input event to `step`.

use vstd::prelude::*;
use crate::nav::{App, advance_spec, retreat_spec};
use crate::snapshot::{PollResult, refresh, refreshed};
use crate::compose::{FrameModel, compose, tabs_match, pane_matches};

verus! {

/// A keyboard key, as far as the session loop distinguishes them.
pub enum InputKey {
    Character(char),
    RightArrow,
    LeftArrow,
    Other,
}

/// One input event: a key press, or anything else (key release or repeat,
/// mouse, resize), which the loop ignores.
pub enum SessionEvent {
    KeyPress(InputKey),
    OtherInput,
}

/// Whether an event ends the session: only pressing `'q'` does.
pub open spec fn step_quits(e: SessionEvent) -> bool {
    e matches SessionEvent::KeyPress(InputKey::Character(c)) && c == 'q'
}

/// The selected index after an event: right-arrow advances, left-arrow
/// retreats, everything else leaves it alone.
pub open spec fn step_index(i: nat, n: nat, e: SessionEvent) -> nat
    recommends
        n >= 1,
{
    match e {
        SessionEvent::KeyPress(InputKey::RightArrow) => advance_spec(i, n),
        SessionEvent::KeyPress(InputKey::LeftArrow) => retreat_spec(i, n),
        _ => i,
    }
}

/// Dispatches one input event: mutates the navigation state as the arrow
/// keys demand and reports whether the session should end.
pub fn step(app: &mut App, event: &SessionEvent) -> (quit: bool)
    requires
        old(app).wf(),
    ensures
        final(app).wf(),
        final(app).titles@ == old(app).titles@,
        quit == step_quits(*event),
        final(app).index as nat == step_index(
            old(app).index as nat,
            old(app).titles@.len(),
            *event,
        ),
{
    match event {
        SessionEvent::KeyPress(key) => match key {
            InputKey::Character(c) => *c == 'q',
            InputKey::RightArrow => {
                app.next();
                false
            },
            InputKey::LeftArrow => {
                app.previous();
                false
            },
            InputKey::Other => false,
        },
        SessionEvent::OtherInput => false,
    }
}

/// One frame's pure work, in the order the session loop owes it: merge the
/// poll result into the snapshot buffer, then compose the frame from the
/// freshly refreshed buffer.
pub fn ui(app: &App, buf: &mut String, poll: &PollResult) -> (r: FrameModel)
    requires
        app.wf(),
        app.titles@.len() == 4,
    ensures
        final(buf)@ == refreshed(old(buf)@, *poll),
        tabs_match(r.tabs, *app),
        pane_matches(r.pane, app.index as nat, final(buf)@),
{
    refresh(buf, poll);
    compose(app, buf)
}

} // verus!
