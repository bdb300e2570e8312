//! The launch sequence.
//!
//! Starting the backend takes ten steps, and each is an effect that only the
//! host can perform. The [`Launcher`] decides: it names the step to perform
//! next, takes the host's report of how the step went, and either moves on,
//! hands out the child, or ends the launch with the reason. Nothing is retried,
//! and the first failure ends the launch, so no later step is ever performed
//! after an earlier one failed.

use crate::command::{build_server_command, server_command, ServerCommand, ServerCommandView};
use crate::paths::{
    data_dir, data_dir_path, entry_script, entry_script_path, log_dir, log_dir_path, log_file,
    log_file_path, runtime, runtime_path, Location, LocationView, Root,
};
use vstd::prelude::*;
use vstd::string::*;

verus! {

/// The steps of a launch, in the order they run, and the state after the last.
#[derive(Clone, Copy, Debug, PartialEq, Eq, Structural)]
pub enum Stage {
    /// Ask for the resource root, to find the entry script.
    LocateBundle,
    /// Test that the entry script is there.
    CheckEntryScript,
    /// Ask for the resource root again, to find the runtime.
    LocateRuntime,
    /// Test that the runtime is there.
    CheckRuntime,
    /// Ask for the per-user data root.
    LocateDataRoot,
    /// Create the data directory.
    CreateDataDir,
    /// Create the log directory inside it.
    CreateLogDir,
    /// Open the log file.
    OpenLog,
    /// Take a second handle on the log file.
    DuplicateLog,
    /// Start the child.
    Spawn,
    /// The launch is over, one way or the other.
    Finished,
}

/// How a file is opened for writing.
#[derive(Clone, Copy, Debug, PartialEq, Eq, Structural)]
pub struct OpenMode {
    /// Create the file if it does not exist.
    pub create: bool,
    /// Write every byte at the end of the file.
    pub append: bool,
    /// Empty the file on opening it.
    pub truncate: bool,
}

/// How the log file is opened: created if absent, appended to, never emptied,
/// so that the output of earlier runs stays.
pub open spec fn log_mode() -> OpenMode {
    OpenMode { create: true, append: true, truncate: false }
}

/// One effect that the host performs for the launcher.
#[derive(Clone, Debug, PartialEq, Eq)]
pub enum LaunchAction {
    /// Ask the platform for this directory. Answer `Present` or `Absent`.
    ResolveRoot(Root),
    /// Test whether this file exists. Answer `Present` or `Absent`.
    CheckExists(Location),
    /// Create this directory and its missing parents. Answer `Done` or `Failed`.
    CreateDirAll(Location),
    /// Open this file in this mode and keep the handle for the child's
    /// standard output. Answer `Done` or `Failed`.
    OpenLog { path: Location, mode: OpenMode },
    /// Take a second handle on the open log file and keep it for the child's
    /// standard error. Answer `Done` or `Failed`.
    DuplicateLog,
    /// Start the child with this command. Answer `Spawned` or `Failed`.
    Spawn(ServerCommand),
}

/// What a [`LaunchAction`] stands for.
pub enum LaunchActionView {
    ResolveRoot(Root),
    CheckExists(LocationView),
    CreateDirAll(LocationView),
    OpenLog { path: LocationView, mode: OpenMode },
    DuplicateLog,
    Spawn(ServerCommandView),
}

impl View for LaunchAction {
    type V = LaunchActionView;

    open spec fn view(&self) -> LaunchActionView {
        match self {
            LaunchAction::ResolveRoot(root) => LaunchActionView::ResolveRoot(*root),
            LaunchAction::CheckExists(location) => LaunchActionView::CheckExists(location@),
            LaunchAction::CreateDirAll(location) => LaunchActionView::CreateDirAll(location@),
            LaunchAction::OpenLog { path, mode } => LaunchActionView::OpenLog {
                path: path@,
                mode: *mode,
            },
            LaunchAction::DuplicateLog => LaunchActionView::DuplicateLog,
            LaunchAction::Spawn(command) => LaunchActionView::Spawn(command@),
        }
    }
}

impl DeepView for LaunchAction {
    type V = LaunchActionView;

    open spec fn deep_view(&self) -> LaunchActionView {
        self.view()
    }
}

/// The host's report on the action it was asked to perform. `H` is the host's
/// handle on a running child, `E` its I/O error.
#[derive(Debug, PartialEq, Eq)]
pub enum LaunchEvent<H, E> {
    /// The directory is known, or the file exists.
    Present,
    /// The platform reports no such directory, or the file does not exist.
    Absent,
    /// The filesystem operation succeeded.
    Done,
    /// The operation, or the spawn, failed.
    Failed(E),
    /// The child is running.
    Spawned(H),
}

/// Why a launch ended without a child.
#[derive(Debug, PartialEq, Eq)]
pub enum LaunchError<H, E> {
    /// The platform reports no resource root.
    MissingResourceDir,
    /// The entry script is not among the bundled files.
    MissingEntryScript,
    /// The platform reports no resource root when asked for the runtime.
    MissingResourceDirForRuntime,
    /// The runtime is not among the bundled files.
    MissingRuntime,
    /// The platform reports no per-user data root.
    MissingAppDataDir,
    /// A filesystem operation or the spawn failed at `stage`.
    Io { stage: Stage, cause: E },
    /// The host answered `stage` with a report that does not belong to it, or
    /// reported to a launcher that had finished.
    OutOfTurn { stage: Stage, event: LaunchEvent<H, E> },
}

/// What the launcher decides on a report.
#[derive(Debug, PartialEq, Eq)]
pub enum Step<H, E> {
    /// The step succeeded; perform the launcher's next action.
    Continue,
    /// The child is running: the launch is over, and this is its handle.
    Launched(H),
    /// The launch is over, and no child runs.
    Aborted(LaunchError<H, E>),
}

impl Stage {
    /// The stage that follows when this one succeeds.
    pub open spec fn following(self) -> Stage {
        match self {
            Stage::LocateBundle => Stage::CheckEntryScript,
            Stage::CheckEntryScript => Stage::LocateRuntime,
            Stage::LocateRuntime => Stage::CheckRuntime,
            Stage::CheckRuntime => Stage::LocateDataRoot,
            Stage::LocateDataRoot => Stage::CreateDataDir,
            Stage::CreateDataDir => Stage::CreateLogDir,
            Stage::CreateLogDir => Stage::OpenLog,
            Stage::OpenLog => Stage::DuplicateLog,
            Stage::DuplicateLog => Stage::Spawn,
            Stage::Spawn => Stage::Finished,
            Stage::Finished => Stage::Finished,
        }
    }

    /// Whether this stage asks a question that is answered `Present` or
    /// `Absent`.
    pub open spec fn is_query(self) -> bool {
        self == Stage::LocateBundle || self == Stage::CheckEntryScript || self
            == Stage::LocateRuntime || self == Stage::CheckRuntime || self == Stage::LocateDataRoot
    }

    /// Whether this stage is a filesystem operation that is answered `Done` or
    /// `Failed`.
    pub open spec fn is_operation(self) -> bool {
        self == Stage::CreateDataDir || self == Stage::CreateLogDir || self == Stage::OpenLog
            || self == Stage::DuplicateLog
    }

    /// The error that ends the launch when this query stage is answered
    /// `Absent`.
    pub open spec fn absent_error<H, E>(self) -> LaunchError<H, E>
        recommends
            self.is_query(),
    {
        match self {
            Stage::LocateBundle => LaunchError::MissingResourceDir,
            Stage::CheckEntryScript => LaunchError::MissingEntryScript,
            Stage::LocateRuntime => LaunchError::MissingResourceDirForRuntime,
            Stage::CheckRuntime => LaunchError::MissingRuntime,
            _ => LaunchError::MissingAppDataDir,
        }
    }
}

/// The bundled file that `error` reports missing, if it reports one.
pub open spec fn missing_file<H, E>(error: LaunchError<H, E>) -> Option<LocationView> {
    match error {
        LaunchError::MissingEntryScript => Some(entry_script()),
        LaunchError::MissingRuntime => Some(runtime()),
        _ => None,
    }
}

/// The message of `error`, where the launcher has words of its own for it.
/// `shown` is the missing file as the host displays it; it is used by the two
/// errors that report a missing file and by no other.
pub open spec fn message_of<H, E>(error: LaunchError<H, E>, shown: Seq<char>) -> Option<
    Seq<char>,
> {
    match error {
        LaunchError::MissingResourceDir => Some("Missing resource_dir"@),
        LaunchError::MissingEntryScript => Some("Missing Next server bundle at "@ + shown),
        LaunchError::MissingResourceDirForRuntime => Some("Missing resource_dir (bin/node)"@),
        LaunchError::MissingRuntime => Some("Missing bundled Node at "@ + shown),
        LaunchError::MissingAppDataDir => Some("Missing app_data_dir"@),
        LaunchError::Io { .. } => None,
        LaunchError::OutOfTurn { .. } => None,
    }
}

impl<H, E> LaunchError<H, E> {
    /// The bundled file that this error reports missing, if it reports one.
    pub fn missing_file(&self) -> (location: Option<Location>)
        ensures
            location.deep_view() == missing_file(*self),
    {
        match self {
            LaunchError::MissingEntryScript => Some(entry_script_path()),
            LaunchError::MissingRuntime => Some(runtime_path()),
            _ => None,
        }
    }

    /// The message of this error, or `None` where the host's own error or the
    /// stray report speaks for itself. `shown` is the missing file as the host
    /// displays it.
    pub fn message(&self, shown: &str) -> (text: Option<String>)
        ensures
            text.deep_view() == message_of(*self, shown@),
    {
        match self {
            LaunchError::MissingResourceDir => Some("Missing resource_dir".to_owned()),
            LaunchError::MissingEntryScript => {
                let mut text = "Missing Next server bundle at ".to_owned();
                text.append(shown);
                Some(text)
            },
            LaunchError::MissingResourceDirForRuntime => Some(
                "Missing resource_dir (bin/node)".to_owned(),
            ),
            LaunchError::MissingRuntime => {
                let mut text = "Missing bundled Node at ".to_owned();
                text.append(shown);
                Some(text)
            },
            LaunchError::MissingAppDataDir => Some("Missing app_data_dir".to_owned()),
            LaunchError::Io { .. } => None,
            LaunchError::OutOfTurn { .. } => None,
        }
    }
}

/// The action that the host performs at `stage` of a launch on `port`; none
/// once the launch is over.
pub open spec fn action_at(stage: Stage, port: u16) -> Option<LaunchActionView> {
    match stage {
        Stage::LocateBundle => Some(LaunchActionView::ResolveRoot(Root::ResourceDir)),
        Stage::CheckEntryScript => Some(LaunchActionView::CheckExists(entry_script())),
        Stage::LocateRuntime => Some(LaunchActionView::ResolveRoot(Root::ResourceDir)),
        Stage::CheckRuntime => Some(LaunchActionView::CheckExists(runtime())),
        Stage::LocateDataRoot => Some(LaunchActionView::ResolveRoot(Root::AppDataDir)),
        Stage::CreateDataDir => Some(LaunchActionView::CreateDirAll(data_dir())),
        Stage::CreateLogDir => Some(LaunchActionView::CreateDirAll(log_dir())),
        Stage::OpenLog => Some(LaunchActionView::OpenLog { path: log_file(), mode: log_mode() }),
        Stage::DuplicateLog => Some(LaunchActionView::DuplicateLog),
        Stage::Spawn => Some(LaunchActionView::Spawn(server_command(port))),
        Stage::Finished => None,
    }
}

/// The launch ends here, because `event` does not answer `stage`.
pub open spec fn out_of_turn<H, E>(stage: Stage, event: LaunchEvent<H, E>) -> (Stage, Step<H, E>) {
    (Stage::Finished, Step::Aborted(LaunchError::OutOfTurn { stage, event }))
}

/// The stage that follows `stage` on `event`, and what the host is told.
///
/// A query moves on when the answer is `Present` and ends the launch with its
/// own error when it is `Absent`. A filesystem operation moves on when it is
/// `Done`. The spawn ends the launch with the child. `Failed` ends the launch
/// with the host's error, at an operation or at the spawn. Every other pairing
/// ends the launch as out of turn.
pub open spec fn react<H, E>(stage: Stage, event: LaunchEvent<H, E>) -> (Stage, Step<H, E>) {
    if stage.is_query() {
        match event {
            LaunchEvent::Present => (stage.following(), Step::Continue),
            LaunchEvent::Absent => (Stage::Finished, Step::Aborted(stage.absent_error())),
            _ => out_of_turn(stage, event),
        }
    } else if stage.is_operation() {
        match event {
            LaunchEvent::Done => (stage.following(), Step::Continue),
            LaunchEvent::Failed(cause) => (
                Stage::Finished,
                Step::Aborted(LaunchError::Io { stage, cause }),
            ),
            _ => out_of_turn(stage, event),
        }
    } else if stage == Stage::Spawn {
        match event {
            LaunchEvent::Spawned(child) => (Stage::Finished, Step::Launched(child)),
            LaunchEvent::Failed(cause) => (
                Stage::Finished,
                Step::Aborted(LaunchError::Io { stage, cause }),
            ),
            _ => out_of_turn(stage, event),
        }
    } else {
        out_of_turn(stage, event)
    }
}

/// One launch of the backend on a fixed port.
pub struct Launcher {
    port: u16,
    stage: Stage,
}

/// What a [`Launcher`] stands for: the port it launches on and the stage whose
/// action is to be performed next.
pub struct LauncherView {
    pub port: u16,
    pub stage: Stage,
}

impl View for Launcher {
    type V = LauncherView;

    closed spec fn view(&self) -> LauncherView {
        LauncherView { port: self.port, stage: self.stage }
    }
}

impl Launcher {
    /// A launch on `port`, before its first step. Every port is accepted.
    pub fn new(port: u16) -> (launcher: Launcher)
        ensures
            launcher@ == (LauncherView { port, stage: Stage::LocateBundle }),
    {
        Launcher { port, stage: Stage::LocateBundle }
    }

    /// The port of this launch.
    pub fn port(&self) -> (port: u16)
        ensures
            port == self@.port,
    {
        self.port
    }

    /// The stage whose action is to be performed next.
    pub fn stage(&self) -> (stage: Stage)
        ensures
            stage == self@.stage,
    {
        self.stage
    }

    /// Whether the launch is over.
    pub fn is_finished(&self) -> (finished: bool)
        ensures
            finished == (self@.stage == Stage::Finished),
    {
        match self.stage {
            Stage::Finished => true,
            _ => false,
        }
    }

    /// The action to perform next, or `None` once the launch is over.
    pub fn pending(&self) -> (action: Option<LaunchAction>)
        ensures
            action.deep_view() == action_at(self@.stage, self@.port),
            action is Some <==> self@.stage != Stage::Finished,
    {
        match self.stage {
            Stage::LocateBundle => Some(LaunchAction::ResolveRoot(Root::ResourceDir)),
            Stage::CheckEntryScript => Some(LaunchAction::CheckExists(entry_script_path())),
            Stage::LocateRuntime => Some(LaunchAction::ResolveRoot(Root::ResourceDir)),
            Stage::CheckRuntime => Some(LaunchAction::CheckExists(runtime_path())),
            Stage::LocateDataRoot => Some(LaunchAction::ResolveRoot(Root::AppDataDir)),
            Stage::CreateDataDir => Some(LaunchAction::CreateDirAll(data_dir_path())),
            Stage::CreateLogDir => Some(LaunchAction::CreateDirAll(log_dir_path())),
            Stage::OpenLog => Some(
                LaunchAction::OpenLog {
                    path: log_file_path(),
                    mode: OpenMode { create: true, append: true, truncate: false },
                },
            ),
            Stage::DuplicateLog => Some(LaunchAction::DuplicateLog),
            Stage::Spawn => Some(LaunchAction::Spawn(build_server_command(self.port))),
            Stage::Finished => None,
        }
    }

    /// Takes the host's report on the pending action and decides what follows.
    /// The port never changes; the child handle and the host's error pass
    /// through untouched.
    pub fn advance<H, E>(&mut self, event: LaunchEvent<H, E>) -> (step: Step<H, E>)
        ensures
            final(self)@.port == old(self)@.port,
            (final(self)@.stage, step) == react(old(self)@.stage, event),
    {
        let stage = self.stage;
        let step = match stage {
            Stage::LocateBundle | Stage::CheckEntryScript | Stage::LocateRuntime
            | Stage::CheckRuntime | Stage::LocateDataRoot => match event {
                LaunchEvent::Present => Step::Continue,
                LaunchEvent::Absent => Step::Aborted(absent_error_at(stage)),
                other => Step::Aborted(LaunchError::OutOfTurn { stage, event: other }),
            },
            Stage::CreateDataDir | Stage::CreateLogDir | Stage::OpenLog
            | Stage::DuplicateLog => match event {
                LaunchEvent::Done => Step::Continue,
                LaunchEvent::Failed(cause) => Step::Aborted(LaunchError::Io { stage, cause }),
                other => Step::Aborted(LaunchError::OutOfTurn { stage, event: other }),
            },
            Stage::Spawn => match event {
                LaunchEvent::Spawned(child) => Step::Launched(child),
                LaunchEvent::Failed(cause) => Step::Aborted(LaunchError::Io { stage, cause }),
                other => Step::Aborted(LaunchError::OutOfTurn { stage, event: other }),
            },
            Stage::Finished => Step::Aborted(LaunchError::OutOfTurn { stage, event }),
        };
        self.stage = match &step {
            Step::Continue => stage_after(stage),
            _ => Stage::Finished,
        };
        step
    }
}

/// The stage that follows when `stage` succeeds.
fn stage_after(stage: Stage) -> (next: Stage)
    ensures
        next == stage.following(),
{
    match stage {
        Stage::LocateBundle => Stage::CheckEntryScript,
        Stage::CheckEntryScript => Stage::LocateRuntime,
        Stage::LocateRuntime => Stage::CheckRuntime,
        Stage::CheckRuntime => Stage::LocateDataRoot,
        Stage::LocateDataRoot => Stage::CreateDataDir,
        Stage::CreateDataDir => Stage::CreateLogDir,
        Stage::CreateLogDir => Stage::OpenLog,
        Stage::OpenLog => Stage::DuplicateLog,
        Stage::DuplicateLog => Stage::Spawn,
        Stage::Spawn => Stage::Finished,
        Stage::Finished => Stage::Finished,
    }
}

/// The error that ends the launch when the query at `stage` is answered
/// `Absent`.
fn absent_error_at<H, E>(stage: Stage) -> (error: LaunchError<H, E>)
    requires
        stage.is_query(),
    ensures
        error == stage.absent_error::<H, E>(),
{
    match stage {
        Stage::LocateBundle => LaunchError::MissingResourceDir,
        Stage::CheckEntryScript => LaunchError::MissingEntryScript,
        Stage::LocateRuntime => LaunchError::MissingResourceDirForRuntime,
        Stage::CheckRuntime => LaunchError::MissingRuntime,
        _ => LaunchError::MissingAppDataDir,
    }
}

} // verus!
