//! The backend's command line, environment and standard streams.

use crate::decimal::{decimal, decimal_text};
use crate::paths::{
    data_dir, data_dir_path, database_file, database_file_path, runtime, runtime_path, server_dir,
    server_dir_path, Location, LocationView,
};
use crate::port::loopback;
use vstd::prelude::*;

verus! {

/// The value of one environment variable of the child.
#[derive(Clone, Debug, PartialEq, Eq)]
pub enum EnvValue {
    /// Literal text.
    Text(String),
    /// A place on disk, handed over as the host resolves it.
    Path(Location),
}

/// What an [`EnvValue`] stands for.
pub enum EnvValueView {
    Text(Seq<char>),
    Path(LocationView),
}

impl View for EnvValue {
    type V = EnvValueView;

    open spec fn view(&self) -> EnvValueView {
        match self {
            EnvValue::Text(text) => EnvValueView::Text(text@),
            EnvValue::Path(location) => EnvValueView::Path(location@),
        }
    }
}

/// One environment variable set for the child.
#[derive(Clone, Debug, PartialEq, Eq)]
pub struct EnvVar {
    pub name: String,
    pub value: EnvValue,
}

/// What an [`EnvVar`] stands for.
pub struct EnvVarView {
    pub name: Seq<char>,
    pub value: EnvValueView,
}

impl View for EnvVar {
    type V = EnvVarView;

    open spec fn view(&self) -> EnvVarView {
        EnvVarView { name: self.name@, value: self.value@ }
    }
}

impl DeepView for EnvVar {
    type V = EnvVarView;

    open spec fn deep_view(&self) -> EnvVarView {
        self.view()
    }
}

/// Where one standard stream of the child is connected.
#[derive(Clone, Copy, Debug, PartialEq, Eq, Structural)]
pub enum Stream {
    /// Connected to nothing: reads end at once.
    Null,
    /// The handle that opened the log file.
    Log,
    /// A second, independent handle on the same log file.
    LogDuplicate,
}

/// Everything the host needs to start the backend.
#[derive(Clone, Debug, PartialEq, Eq)]
pub struct ServerCommand {
    /// The executable to run.
    pub program: Location,
    /// Its arguments, in order.
    pub args: Vec<String>,
    /// Its working directory.
    pub working_dir: Location,
    /// The variables added to its environment, in the order they are set.
    pub env: Vec<EnvVar>,
    pub stdin: Stream,
    pub stdout: Stream,
    pub stderr: Stream,
}

/// What a [`ServerCommand`] stands for.
pub struct ServerCommandView {
    pub program: LocationView,
    pub args: Seq<Seq<char>>,
    pub working_dir: LocationView,
    pub env: Seq<EnvVarView>,
    pub stdin: Stream,
    pub stdout: Stream,
    pub stderr: Stream,
}

impl View for ServerCommand {
    type V = ServerCommandView;

    open spec fn view(&self) -> ServerCommandView {
        ServerCommandView {
            program: self.program@,
            args: self.args.deep_view(),
            working_dir: self.working_dir@,
            env: self.env.deep_view(),
            stdin: self.stdin,
            stdout: self.stdout,
            stderr: self.stderr,
        }
    }
}

/// A variable whose value is literal text.
pub open spec fn text_var(name: Seq<char>, value: Seq<char>) -> EnvVarView {
    EnvVarView { name, value: EnvValueView::Text(value) }
}

/// A variable whose value is a place on disk.
pub open spec fn path_var(name: Seq<char>, value: LocationView) -> EnvVarView {
    EnvVarView { name, value: EnvValueView::Path(value) }
}

/// The environment of the backend when it is to listen on `port`: the loopback
/// address, the port in decimal, production mode, telemetry off, the data
/// directory, and the database file inside it.
pub open spec fn server_env(port: u16) -> Seq<EnvVarView> {
    seq![
        text_var("HOSTNAME"@, loopback()),
        text_var("PORT"@, decimal(port as nat)),
        text_var("NODE_ENV"@, "production"@),
        text_var("NEXT_TELEMETRY_DISABLED"@, "1"@),
        path_var("MOONDREAM_DATA_DIR"@, data_dir()),
        path_var("MOONDREAM_DB_PATH"@, database_file()),
    ]
}

/// The command that starts the backend on `port`: the bundled runtime, run in
/// the entry script's directory with the script's name as its only argument,
/// with nothing on standard input and both output streams in the log file,
/// each through a handle of its own.
pub open spec fn server_command(port: u16) -> ServerCommandView {
    ServerCommandView {
        program: runtime(),
        args: seq!["server.js"@],
        working_dir: server_dir(),
        env: server_env(port),
        stdin: Stream::Null,
        stdout: Stream::Log,
        stderr: Stream::LogDuplicate,
    }
}

fn text_env(name: &str, value: String) -> (var: EnvVar)
    ensures
        var@ == text_var(name@, value@),
{
    EnvVar { name: name.to_owned(), value: EnvValue::Text(value) }
}

fn path_env(name: &str, value: Location) -> (var: EnvVar)
    ensures
        var@ == path_var(name@, value@),
{
    EnvVar { name: name.to_owned(), value: EnvValue::Path(value) }
}

/// Builds the environment of the backend for `port`.
pub fn build_server_env(port: u16) -> (env: Vec<EnvVar>)
    ensures
        env.deep_view() == server_env(port),
{
    let mut env: Vec<EnvVar> = Vec::new();
    env.push(text_env("HOSTNAME", "127.0.0.1".to_owned()));
    env.push(text_env("PORT", decimal_text(port)));
    env.push(text_env("NODE_ENV", "production".to_owned()));
    env.push(text_env("NEXT_TELEMETRY_DISABLED", "1".to_owned()));
    env.push(path_env("MOONDREAM_DATA_DIR", data_dir_path()));
    env.push(path_env("MOONDREAM_DB_PATH", database_file_path()));
    assert(env.deep_view() =~= server_env(port));
    env
}

/// Builds the command that starts the backend on `port`.
pub fn build_server_command(port: u16) -> (command: ServerCommand)
    ensures
        command@ == server_command(port),
{
    let mut args: Vec<String> = Vec::new();
    args.push("server.js".to_owned());
    assert(args.deep_view() =~= seq!["server.js"@]);
    ServerCommand {
        program: runtime_path(),
        args,
        working_dir: server_dir_path(),
        env: build_server_env(port),
        stdin: Stream::Null,
        stdout: Stream::Log,
        stderr: Stream::LogDuplicate,
    }
}

} // verus!
