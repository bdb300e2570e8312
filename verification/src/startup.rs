//! How a run begins.
//!
//! A development build points its window at a server that the developer runs,
//! so it supervises nothing. A packaged build picks a port, records it in the
//! shared state before anything else happens, and launches the backend on it.

use crate::command::{server_env, text_var};
use crate::decimal::decimal;
use crate::launch::{action_at, Launcher, LauncherView, Stage};
use crate::notify::{readiness, readiness_notices, Notice, NoticeView};
use crate::port::{choose_port, chosen_port, Probe, FALLBACK_PORT};
use crate::state::{SupervisorModel, SupervisorState};
use vstd::prelude::*;

verus! {

/// How the application was built.
#[derive(Clone, Copy, Debug, PartialEq, Eq, Structural)]
pub enum Build {
    /// Built for development.
    Development,
    /// Built for distribution, with the backend bundled.
    Packaged,
}

/// Whether this build runs a backend of its own.
pub fn supervises(build: Build) -> (yes: bool)
    ensures
        yes == (build == Build::Packaged),
{
    match build {
        Build::Development => false,
        Build::Packaged => true,
    }
}

/// The port of the launch that begins in `state` after `probe`: the port the
/// state holds already, or else the one chosen after the probe.
pub open spec fn launch_port<H>(state: SupervisorModel<H>, probe: Probe) -> u16 {
    match state.port {
        Some(port) => port,
        None => chosen_port(probe),
    }
}

/// Begins a launch: offers the state the port chosen after `probe`, and
/// returns a launcher on the port that the state then holds. A failed probe
/// does not stop the launch: it goes on with the fallback port.
pub fn begin_launch<H>(state: &mut SupervisorState<H>, probe: Probe) -> (launcher: Launcher)
    ensures
        final(state)@ == old(state)@.record_port(chosen_port(probe)),
        final(state)@.port == Some(launch_port(old(state)@, probe)),
        final(state)@.wf(),
        launcher@ == (LauncherView {
            port: launch_port(old(state)@, probe),
            stage: Stage::LocateBundle,
        }),
{
    let chosen = choose_port(probe);
    state.record_port(chosen);
    let port = match state.server_port() {
        Some(port) => port,
        None => chosen,
    };
    Launcher::new(port)
}

/// How a launch is wound up once the child runs.
#[derive(Debug, PartialEq, Eq)]
pub struct Completion<H> {
    /// The handle, come back because the state did not take it in. The host
    /// terminates the child it stands for.
    pub refused: Option<H>,
    /// What the window is to be told, in order.
    pub notices: Vec<Notice>,
}

/// What the window is told when a child is offered to `state`: the readiness
/// messages for the recorded port, if the child is taken in and a port is
/// recorded; nothing otherwise.
pub open spec fn announcement<H>(state: SupervisorModel<H>, window_present: bool) -> Seq<
    NoticeView,
> {
    match state.port {
        Some(port) if state.accepts_child() => readiness(port, window_present),
        _ => Seq::empty(),
    }
}

/// Winds up a launch that ended with a running child: offers the handle to
/// the state, and announces the recorded port to the window if the handle was
/// taken in. A handle that is not taken in comes back, and nothing is
/// announced for it.
pub fn complete_launch<H>(state: &mut SupervisorState<H>, child: H, window_present: bool) -> (done:
    Completion<H>)
    ensures
        final(state)@ == old(state)@.attach_child(child),
        final(state)@.wf(),
        old(state)@.accepts_child() ==> done.refused is None,
        !old(state)@.accepts_child() ==> done.refused == Some(child),
        done.notices.deep_view() == announcement(old(state)@, window_present),
{
    let refused = state.attach_child(child);
    let notices = match (&refused, state.server_port()) {
        (None, Some(port)) => readiness_notices(port, window_present),
        _ => {
            let none: Vec<Notice> = Vec::new();
            assert(none.deep_view() =~= Seq::<NoticeView>::empty());
            none
        },
    };
    Completion { refused, notices }
}

/// A failed probe costs the launch nothing but the choice of port. Whichever
/// way the probe failed, a run that holds no port yet records the fallback
/// port, launches on it, has a first step to perform, and tells the backend
/// to listen on `3210`.
pub proof fn lemma_failed_probe_launches_on_fallback<H>(state: SupervisorModel<H>, probe: Probe)
    requires
        !(probe is Assigned),
        state.port is None,
    ensures
        launch_port(state, probe) == FALLBACK_PORT,
        state.record_port(chosen_port(probe)).port == Some(FALLBACK_PORT),
        action_at(Stage::LocateBundle, launch_port(state, probe)) is Some,
        server_env(launch_port(state, probe))[1] == text_var("PORT"@, "3210"@),
{
    reveal_strlit("3210");
    reveal_with_fuel(decimal, 4);
    assert(decimal(3210) =~= "3210"@);
}

/// An assigned port is used as it is: the state records it, and the launch
/// runs on it.
pub proof fn lemma_assigned_port_is_used<H>(state: SupervisorModel<H>, port: u16)
    requires
        state.port is None,
    ensures
        launch_port(state, Probe::Assigned(port)) == port,
        state.record_port(chosen_port(Probe::Assigned(port))).port == Some(port),
{
}

} // verus!
