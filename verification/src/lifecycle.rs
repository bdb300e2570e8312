//! The close guard: what a window event triggers.
//!
//! A close request is answered the same way every time: hold the window open,
//! give up the child for termination if one is held, then let the window
//! close. Taking the child out of the shared state is what makes termination
//! happen at most once: a second request finds no child.

use crate::state::{SupervisorModel, SupervisorState};
use vstd::prelude::*;

verus! {

/// What the window reports to the guard.
#[derive(Clone, Copy, Debug, PartialEq, Eq, Structural)]
pub enum WindowEvent {
    /// The user or the system asked the window to close.
    CloseRequested,
    /// Anything else; the guard does not react.
    Other,
}

/// One thing the host does in answer to a close request.
#[derive(Debug, PartialEq, Eq)]
pub enum CloseAction<H> {
    /// Keep the window from closing for now.
    PreventClose,
    /// Send the child behind this handle a forceful termination signal, and
    /// ignore any error: the child may have exited already.
    Terminate(H),
    /// Let the window close.
    CloseWindow,
}

/// The host's actions on a close request, in order, when `child` is what the
/// shared state holds.
pub open spec fn close_actions<H>(child: Option<H>) -> Seq<CloseAction<H>> {
    match child {
        Some(handle) => seq![
            CloseAction::PreventClose,
            CloseAction::Terminate(handle),
            CloseAction::CloseWindow,
        ],
        None => seq![CloseAction::PreventClose, CloseAction::CloseWindow],
    }
}

/// The host's actions on `event` in `state`.
pub open spec fn window_actions<H>(state: SupervisorModel<H>, event: WindowEvent) -> Seq<
    CloseAction<H>,
> {
    match event {
        WindowEvent::CloseRequested => close_actions(state.child),
        WindowEvent::Other => Seq::empty(),
    }
}

/// The shared state after `event`.
pub open spec fn after_window_event<H>(
    state: SupervisorModel<H>,
    event: WindowEvent,
) -> SupervisorModel<H> {
    match event {
        WindowEvent::CloseRequested => state.close(),
        WindowEvent::Other => state,
    }
}

/// Handles a close request: takes the child out of `state` and returns what
/// the host is to do, in order.
pub fn on_close_requested<H>(state: &mut SupervisorState<H>) -> (actions: Vec<CloseAction<H>>)
    ensures
        actions@ == close_actions(old(state)@.child),
        final(state)@ == old(state)@.close(),
        final(state)@.wf(),
{
    let mut actions: Vec<CloseAction<H>> = Vec::new();
    actions.push(CloseAction::PreventClose);
    match state.release_child() {
        Some(handle) => {
            actions.push(CloseAction::Terminate(handle));
        },
        None => {},
    }
    actions.push(CloseAction::CloseWindow);
    assert(actions@ =~= close_actions(old(state)@.child));
    actions
}

/// Handles any window event. Only a close request does anything.
pub fn on_window_event<H>(state: &mut SupervisorState<H>, event: WindowEvent) -> (actions: Vec<
    CloseAction<H>,
>)
    ensures
        actions@ == window_actions(old(state)@, event),
        final(state)@ == after_window_event(old(state)@, event),
{
    match event {
        WindowEvent::CloseRequested => on_close_requested(state),
        WindowEvent::Other => Vec::new(),
    }
}

} // verus!
