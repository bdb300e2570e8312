//! Decision core of a desktop shell that supervises one local backend server.
//!
//! The host application owns every effect: it probes the network, touches the
//! filesystem, spawns and kills the child, and talks to the window. This crate
//! owns every decision: which port to use, where the bundled files and the
//! per-user data live, what the child's command line and environment are, in
//! which order the launch steps run and how each failure ends the launch, what
//! the shared state may do, what the window is told, and what a close request
//! triggers.
//!
//! A run goes through the modules in this order:
//!
//! - [`startup`] begins the launch: [`port`] picks the port, [`state`] records
//!   it.
//! - [`launch`] walks the host through the steps of the launch; [`paths`] and
//!   [`command`] say what each step works on.
//! - [`startup`] winds the launch up: [`state`] takes the child in, [`notify`]
//!   words what the window is told.
//! - [`lifecycle`] answers the close request.
//!
//! [`trace`] and [`history`] state what holds of every launch and of every run.

pub mod command;
pub mod decimal;
pub mod history;
pub mod launch;
pub mod lifecycle;
pub mod notify;
pub mod paths;
pub mod port;
pub mod startup;
pub mod state;
pub mod trace;
