//! The state that the startup, the close handler and the port query share.
//!
//! There is one [`SupervisorState`] per run of the application. The host keeps
//! it behind its own lock; every method here is one step under that lock, so
//! no caller sees a half-made change. `H` is the host's handle on the running
//! child: it is held, handed out once, and never looked into.

use vstd::prelude::*;

verus! {

/// The two states of the close guard.
#[derive(Clone, Copy, Debug, PartialEq, Eq, Structural)]
pub enum Lifecycle {
    /// No close request has been handled yet.
    Running,
    /// A close request has been handled; the child, if there was one, has been
    /// given up for termination.
    Terminated,
}

/// The port and the child of one run, and the state of its close guard.
pub struct SupervisorState<H> {
    port: Option<u16>,
    child: Option<H>,
    lifecycle: Lifecycle,
}

/// What a [`SupervisorState`] stands for.
pub struct SupervisorModel<H> {
    /// The allocated port; absent until a launch has begun.
    pub port: Option<u16>,
    /// The handle on the child; present while a child has been started and has
    /// not been given up for termination.
    pub child: Option<H>,
    /// Whether a close request has been handled.
    pub lifecycle: Lifecycle,
}

impl<H> SupervisorModel<H> {
    /// No child is held once the close guard has fired.
    pub open spec fn wf(self) -> bool {
        self.lifecycle == Lifecycle::Terminated ==> self.child is None
    }

    /// The state at the start of a run.
    pub open spec fn initial() -> Self {
        SupervisorModel { port: None, child: None, lifecycle: Lifecycle::Running }
    }

    /// The state after `port` is offered: it is recorded if none was, and
    /// changes nothing otherwise.
    pub open spec fn record_port(self, port: u16) -> Self {
        if self.port is None {
            SupervisorModel { port: Some(port), ..self }
        } else {
            self
        }
    }

    /// Whether a child offered now is taken in: only while the guard has not
    /// fired and no child is held.
    pub open spec fn accepts_child(self) -> bool {
        self.lifecycle == Lifecycle::Running && self.child is None
    }

    /// The state after `child` is offered.
    pub open spec fn attach_child(self, child: H) -> Self {
        if self.accepts_child() {
            SupervisorModel { child: Some(child), ..self }
        } else {
            self
        }
    }

    /// The state after a close request: no child is held, and the guard has
    /// fired.
    pub open spec fn close(self) -> Self {
        SupervisorModel { child: None, lifecycle: Lifecycle::Terminated, ..self }
    }
}

impl<H> View for SupervisorState<H> {
    type V = SupervisorModel<H>;

    closed spec fn view(&self) -> SupervisorModel<H> {
        SupervisorModel { port: self.port, child: self.child, lifecycle: self.lifecycle }
    }
}

impl<H> SupervisorState<H> {
    #[verifier::type_invariant]
    spec fn inv(self) -> bool {
        self.lifecycle == Lifecycle::Terminated ==> self.child is None
    }

    /// The state at the start of a run: no port, no child, guard not fired.
    pub fn new() -> (state: Self)
        ensures
            state@ == SupervisorModel::<H>::initial(),
    {
        SupervisorState { port: None, child: None, lifecycle: Lifecycle::Running }
    }

    /// The allocated port, or `None` before a launch has begun. Asking changes
    /// nothing.
    pub fn server_port(&self) -> (port: Option<u16>)
        ensures
            port == self@.port,
    {
        self.port
    }

    /// Whether a child is held.
    pub fn has_child(&self) -> (held: bool)
        ensures
            held == self@.child is Some,
    {
        self.child.is_some()
    }

    /// The state of the close guard.
    pub fn lifecycle(&self) -> (lifecycle: Lifecycle)
        ensures
            lifecycle == self@.lifecycle,
    {
        self.lifecycle
    }

    /// Offers the allocated port. The first port offered is recorded for the
    /// rest of the run; a later offer changes nothing. Returns whether `port`
    /// was recorded.
    pub fn record_port(&mut self, port: u16) -> (recorded: bool)
        ensures
            recorded == old(self)@.port is None,
            final(self)@ == old(self)@.record_port(port),
            final(self)@.wf(),
    {
        proof {
            use_type_invariant(&*self);
        }
        if self.port.is_none() {
            self.port = Some(port);
            true
        } else {
            false
        }
    }

    /// Offers the handle of a child that was just started. It is taken in
    /// while the guard has not fired and no child is held; otherwise the state
    /// stays as it is and the handle comes back, so that the caller can
    /// terminate the child it stands for.
    pub fn attach_child(&mut self, child: H) -> (refused: Option<H>)
        ensures
            old(self)@.accepts_child() ==> refused is None,
            !old(self)@.accepts_child() ==> refused == Some(child),
            final(self)@ == old(self)@.attach_child(child),
            final(self)@.wf(),
    {
        proof {
            use_type_invariant(&*self);
        }
        let running = match self.lifecycle {
            Lifecycle::Running => true,
            Lifecycle::Terminated => false,
        };
        if running && self.child.is_none() {
            self.child = Some(child);
            None
        } else {
            Some(child)
        }
    }

    /// Fires the close guard: gives up the child, if one is held, and leaves
    /// the state without one for good.
    pub(crate) fn release_child(&mut self) -> (child: Option<H>)
        ensures
            child == old(self)@.child,
            final(self)@ == old(self)@.close(),
            final(self)@.wf(),
    {
        let mut child: Option<H> = None;
        core::mem::swap(&mut self.child, &mut child);
        self.lifecycle = Lifecycle::Terminated;
        child
    }
}

} // verus!
