//! What holds of the shared state over a whole run.
//!
//! A run is the state at its start and the requests made of it, in order:
//! port queries, offers of a port, offers of a child, and window events. The
//! statements here are over every such sequence.

use crate::lifecycle::{after_window_event, window_actions, CloseAction, WindowEvent};
use crate::notify::NoticeView;
use crate::startup::announcement;
use crate::state::{Lifecycle, SupervisorModel};
use vstd::prelude::*;

verus! {

/// One request made of the shared state.
pub enum Request<H> {
    /// The port query.
    QueryPort,
    /// The startup offers the port it allocated.
    RecordPort(u16),
    /// The child that was started is offered, without a word to the window.
    AttachChild(H),
    /// The startup winds up its launch: it offers the child it started, and
    /// says whether there is a window to tell.
    CompleteLaunch { child: H, window_present: bool },
    /// The window reports an event to the close guard.
    Window(WindowEvent),
}

/// The state after one request.
pub open spec fn apply<H>(state: SupervisorModel<H>, request: Request<H>) -> SupervisorModel<H> {
    match request {
        Request::QueryPort => state,
        Request::RecordPort(port) => state.record_port(port),
        Request::AttachChild(child) => state.attach_child(child),
        Request::CompleteLaunch { child, window_present } => state.attach_child(child),
        Request::Window(event) => after_window_event(state, event),
    }
}

/// The state after the first `n` of `requests`.
pub open spec fn state_at<H>(
    start: SupervisorModel<H>,
    requests: Seq<Request<H>>,
    n: int,
) -> SupervisorModel<H>
    recommends
        0 <= n <= requests.len(),
    decreases n,
{
    if n <= 0 {
        start
    } else {
        apply(state_at(start, requests, n - 1), requests[n - 1])
    }
}

/// Whether request `i` takes the child away: one is held before it and none
/// after it.
pub open spec fn releases_child<H>(
    start: SupervisorModel<H>,
    requests: Seq<Request<H>>,
    i: int,
) -> bool {
    state_at(start, requests, i).child is Some && state_at(start, requests, i + 1).child is None
}

/// Whether request `i` puts a child into the state.
pub open spec fn attaches_child<H>(
    start: SupervisorModel<H>,
    requests: Seq<Request<H>>,
    i: int,
) -> bool {
    state_at(start, requests, i).child is None && state_at(start, requests, i + 1).child is Some
}

/// What the window is told on request `i`.
pub open spec fn announced<H>(
    start: SupervisorModel<H>,
    requests: Seq<Request<H>>,
    i: int,
) -> Seq<NoticeView> {
    match requests[i] {
        Request::CompleteLaunch { child, window_present } => announcement(
            state_at(start, requests, i),
            window_present,
        ),
        _ => Seq::empty(),
    }
}

/// A well-formed state stays well formed.
pub proof fn lemma_run_stays_wf<H>(start: SupervisorModel<H>, requests: Seq<Request<H>>, n: int)
    requires
        start.wf(),
        0 <= n <= requests.len(),
    ensures
        state_at(start, requests, n).wf(),
    decreases n,
{
    if n > 0 {
        lemma_run_stays_wf(start, requests, n - 1);
    }
}

/// Once a port is recorded it is the port for the rest of the run: whatever
/// is requested afterwards, the state holds the same port, and so every later
/// query returns it.
pub proof fn lemma_port_never_changes<H>(
    start: SupervisorModel<H>,
    requests: Seq<Request<H>>,
    i: int,
    j: int,
)
    requires
        0 <= i <= j <= requests.len(),
        state_at(start, requests, i).port is Some,
    ensures
        state_at(start, requests, j).port == state_at(start, requests, i).port,
    decreases j - i,
{
    if i < j {
        lemma_port_never_changes(start, requests, i, j - 1);
    }
}

/// Once the guard has fired it stays fired, and no child is held again.
pub proof fn lemma_terminated_for_good<H>(
    start: SupervisorModel<H>,
    requests: Seq<Request<H>>,
    i: int,
    j: int,
)
    requires
        start.wf(),
        0 <= i <= j <= requests.len(),
        state_at(start, requests, i).lifecycle == Lifecycle::Terminated,
    ensures
        state_at(start, requests, j).lifecycle == Lifecycle::Terminated,
        state_at(start, requests, j).child is None,
    decreases j - i,
{
    if i < j {
        lemma_terminated_for_good(start, requests, i, j - 1);
    } else {
        lemma_run_stays_wf(start, requests, i);
    }
}

/// Only a close request takes the child away, and it leaves the guard fired.
pub proof fn lemma_only_close_releases<H>(
    start: SupervisorModel<H>,
    requests: Seq<Request<H>>,
    i: int,
)
    requires
        0 <= i < requests.len(),
        releases_child(start, requests, i),
    ensures
        requests[i] == Request::<H>::Window(WindowEvent::CloseRequested),
        state_at(start, requests, i + 1).lifecycle == Lifecycle::Terminated,
{
}

/// The child is taken away at most once in a run: two requests that both take
/// it away are one and the same request.
pub proof fn lemma_child_released_at_most_once<H>(
    start: SupervisorModel<H>,
    requests: Seq<Request<H>>,
    i: int,
    j: int,
)
    requires
        start.wf(),
        0 <= i < requests.len(),
        0 <= j < requests.len(),
        releases_child(start, requests, i),
        releases_child(start, requests, j),
    ensures
        i == j,
{
    if i < j {
        lemma_only_close_releases(start, requests, i);
        lemma_terminated_for_good(start, requests, i + 1, j);
    } else if j < i {
        lemma_only_close_releases(start, requests, j);
        lemma_terminated_for_good(start, requests, j + 1, i);
    }
}

/// A close request that follows an earlier one changes nothing and asks for no
/// termination: the host only holds the window and lets it close.
pub proof fn lemma_later_close_is_idle<H>(
    start: SupervisorModel<H>,
    requests: Seq<Request<H>>,
    i: int,
    j: int,
)
    requires
        start.wf(),
        0 <= i < j < requests.len(),
        requests[i] == Request::<H>::Window(WindowEvent::CloseRequested),
        requests[j] == Request::<H>::Window(WindowEvent::CloseRequested),
    ensures
        state_at(start, requests, j + 1) == state_at(start, requests, j),
        window_actions(state_at(start, requests, j), WindowEvent::CloseRequested) == seq![
            CloseAction::<H>::PreventClose,
            CloseAction::<H>::CloseWindow,
        ],
{
    lemma_terminated_for_good(start, requests, i + 1, j);
}

/// Once a child has been taken in, none is taken in again: the state either
/// holds it or has given it up for good.
pub proof fn lemma_no_child_after_the_first<H>(
    start: SupervisorModel<H>,
    requests: Seq<Request<H>>,
    i: int,
    j: int,
)
    requires
        start.wf(),
        0 <= i <= j <= requests.len(),
        !state_at(start, requests, i).accepts_child(),
    ensures
        !state_at(start, requests, j).accepts_child(),
    decreases j - i,
{
    if i < j {
        lemma_no_child_after_the_first(start, requests, i, j - 1);
        lemma_run_stays_wf(start, requests, j - 1);
    }
}

/// A run supervises at most one child: two requests that both put a child into
/// the state are one and the same request.
pub proof fn lemma_child_attached_at_most_once<H>(
    start: SupervisorModel<H>,
    requests: Seq<Request<H>>,
    i: int,
    j: int,
)
    requires
        start.wf(),
        0 <= i < requests.len(),
        0 <= j < requests.len(),
        attaches_child(start, requests, i),
        attaches_child(start, requests, j),
    ensures
        i == j,
{
    if i < j {
        lemma_no_child_after_the_first(start, requests, i + 1, j);
    } else if j < i {
        lemma_no_child_after_the_first(start, requests, j + 1, i);
    }
}

/// The window is told at most once in a run: two requests on which anything
/// is announced are one and the same request. What is announced is the port
/// that the state holds then, which is the port it holds ever after.
pub proof fn lemma_announced_at_most_once<H>(
    start: SupervisorModel<H>,
    requests: Seq<Request<H>>,
    i: int,
    j: int,
)
    requires
        start.wf(),
        0 <= i < requests.len(),
        0 <= j < requests.len(),
        announced(start, requests, i).len() > 0,
        announced(start, requests, j).len() > 0,
    ensures
        i == j,
{
    if i < j {
        lemma_no_child_after_the_first(start, requests, i + 1, j);
    } else if j < i {
        lemma_no_child_after_the_first(start, requests, j + 1, i);
    }
}

} // verus!
