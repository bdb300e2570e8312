//! Where the bundled files and the per-user data live.
//!
//! A [`Location`] names a place without touching the filesystem: one of the two
//! directories that only the platform can report, and the segments to join onto
//! it, in order. The host resolves the root and joins the segments with its own
//! path type, so separators and encodings never enter the decisions made here.

use vstd::prelude::*;

verus! {

/// A directory that the platform reports at run time.
#[derive(Clone, Copy, Debug, PartialEq, Eq, Structural)]
pub enum Root {
    /// The directory that holds the application's bundled resources.
    ResourceDir,
    /// The per-user directory for this application's data.
    AppDataDir,
}

/// A root directory and the segments joined onto it, first segment first.
#[derive(Clone, Debug, PartialEq, Eq)]
pub struct Location {
    pub root: Root,
    pub segments: Vec<String>,
}

/// What a [`Location`] stands for: its root and the text of each segment.
pub struct LocationView {
    pub root: Root,
    pub segments: Seq<Seq<char>>,
}

impl View for Location {
    type V = LocationView;

    open spec fn view(&self) -> LocationView {
        LocationView { root: self.root, segments: self.segments.deep_view() }
    }
}

impl DeepView for Location {
    type V = LocationView;

    open spec fn deep_view(&self) -> LocationView {
        self.view()
    }
}

impl LocationView {
    /// This location with one more segment joined onto it.
    pub open spec fn join(self, segment: Seq<char>) -> LocationView {
        LocationView { root: self.root, segments: self.segments.push(segment) }
    }
}

/// The root directory itself.
pub open spec fn root_of(root: Root) -> LocationView {
    LocationView { root, segments: Seq::empty() }
}

/// The bundled file or directory `rel`: bundled files sit in the `resources`
/// directory of the resource root, and `rel` is joined on as one segment.
pub open spec fn bundled(rel: Seq<char>) -> LocationView {
    root_of(Root::ResourceDir).join("resources"@).join(rel)
}

/// The directory that holds the backend's entry script.
pub open spec fn server_dir() -> LocationView {
    bundled("next"@)
}

/// The backend's entry script.
pub open spec fn entry_script() -> LocationView {
    server_dir().join("server.js"@)
}

/// The bundled runtime executable that runs the entry script.
pub open spec fn runtime() -> LocationView {
    bundled("bin/node"@)
}

/// The directory handed to the backend for everything it persists.
pub open spec fn data_dir() -> LocationView {
    root_of(Root::AppDataDir).join("data"@)
}

/// The directory of the backend's log, inside the data directory.
pub open spec fn log_dir() -> LocationView {
    data_dir().join("logs"@)
}

/// The single append-only file that captures the backend's output.
pub open spec fn log_file() -> LocationView {
    log_dir().join("next-server.log"@)
}

/// The database file, inside the data directory, shared with sibling workers.
pub open spec fn database_file() -> LocationView {
    data_dir().join("moondream.sqlite3"@)
}

impl Location {
    /// The root directory itself.
    pub fn at(root: Root) -> (location: Location)
        ensures
            location@ == root_of(root),
    {
        let location = Location { root, segments: Vec::new() };
        assert(location@.segments =~= Seq::empty());
        location
    }

    /// Joins one more segment onto this location.
    pub fn join(self, segment: &str) -> (location: Location)
        ensures
            location@ == self@.join(segment@),
    {
        let mut segments = self.segments;
        segments.push(segment.to_owned());
        let location = Location { root: self.root, segments };
        assert(location@.segments =~= self@.segments.push(segment@));
        location
    }
}

/// The bundled file or directory `rel`, under the resource root.
pub fn resource_path(rel: &str) -> (location: Location)
    ensures
        location@ == bundled(rel@),
{
    Location::at(Root::ResourceDir).join("resources").join(rel)
}

/// The directory that holds the backend's entry script; the backend runs with
/// it as its working directory.
pub fn server_dir_path() -> (location: Location)
    ensures
        location@ == server_dir(),
{
    resource_path("next")
}

/// The backend's entry script.
pub fn entry_script_path() -> (location: Location)
    ensures
        location@ == entry_script(),
{
    server_dir_path().join("server.js")
}

/// The bundled runtime executable.
pub fn runtime_path() -> (location: Location)
    ensures
        location@ == runtime(),
{
    resource_path("bin/node")
}

/// The data directory, under the per-user root.
pub fn data_dir_path() -> (location: Location)
    ensures
        location@ == data_dir(),
{
    Location::at(Root::AppDataDir).join("data")
}

/// The log directory, inside the data directory.
pub fn log_dir_path() -> (location: Location)
    ensures
        location@ == log_dir(),
{
    data_dir_path().join("logs")
}

/// The log file, inside the log directory.
pub fn log_file_path() -> (location: Location)
    ensures
        location@ == log_file(),
{
    log_dir_path().join("next-server.log")
}

/// The database file, inside the data directory.
pub fn database_file_path() -> (location: Location)
    ensures
        location@ == database_file(),
{
    data_dir_path().join("moondream.sqlite3")
}

} // verus!
