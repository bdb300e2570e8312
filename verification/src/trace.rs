//! What holds of every launch, whatever the host reports.
//!
//! A launch is a [`Launcher`](crate::launch::Launcher) fed one report after
//! another. Its course is given by the stage it starts at and the reports, so
//! the statements here are over every sequence of reports.

use crate::command::{path_var, server_command, server_env, Stream};
use crate::launch::{
    action_at, log_mode, react, LaunchActionView, LaunchError, LaunchEvent, Stage, Step,
};
use crate::paths::{
    data_dir, database_file, entry_script, log_dir, log_file, runtime, Root,
};
use vstd::prelude::*;

verus! {

/// The stages of a launch in which every step succeeds, in order.
pub open spec fn script() -> Seq<Stage> {
    seq![
        Stage::LocateBundle,
        Stage::CheckEntryScript,
        Stage::LocateRuntime,
        Stage::CheckRuntime,
        Stage::LocateDataRoot,
        Stage::CreateDataDir,
        Stage::CreateLogDir,
        Stage::OpenLog,
        Stage::DuplicateLog,
        Stage::Spawn,
    ]
}

/// The stages whose actions the host is asked to perform, in order, when the
/// launcher stands at `stage` and the host reports `events` one by one. The
/// action of the stage reached after the last report is asked for too.
pub open spec fn visited<H, E>(stage: Stage, events: Seq<LaunchEvent<H, E>>) -> Seq<Stage>
    decreases events.len(),
{
    if stage == Stage::Finished {
        Seq::empty()
    } else if events.len() == 0 {
        seq![stage]
    } else {
        seq![stage] + visited(react(stage, events[0]).0, events.drop_first())
    }
}

/// What the launcher decides on each of `events`, in order, from `stage` on.
pub open spec fn decisions<H, E>(stage: Stage, events: Seq<LaunchEvent<H, E>>) -> Seq<Step<H, E>>
    decreases events.len(),
{
    if events.len() == 0 {
        Seq::empty()
    } else {
        seq![react(stage, events[0]).1] + decisions(
            react(stage, events[0]).0,
            events.drop_first(),
        )
    }
}

/// Whether `event` reports success at `stage` without ending the launch.
pub open spec fn succeeds<H, E>(stage: Stage, event: LaunchEvent<H, E>) -> bool {
    react(stage, event).1 is Continue
}

/// Every report gets one decision.
pub proof fn lemma_one_decision_per_report<H, E>(stage: Stage, events: Seq<LaunchEvent<H, E>>)
    ensures
        decisions(stage, events).len() == events.len(),
    decreases events.len(),
{
    if events.len() > 0 {
        lemma_one_decision_per_report(react(stage, events[0]).0, events.drop_first());
    }
}

proof fn lemma_visited_from<H, E>(k: int, events: Seq<LaunchEvent<H, E>>)
    requires
        0 <= k < 10,
    ensures
        visited(script()[k], events).len() <= 10 - k,
        visited(script()[k], events).len() <= events.len() + 1,
        forall|i: int|
            0 <= i < visited(script()[k], events).len() ==> #[trigger] visited(
                script()[k],
                events,
            )[i] == script()[k + i],
        forall|i: int|
            0 <= i < visited(script()[k], events).len() - 1 ==> succeeds(
                script()[k + i],
                #[trigger] events[i],
            ),
    decreases events.len(),
{
    let stage = script()[k];
    if events.len() > 0 {
        let next = react(stage, events[0]).0;
        let rest = events.drop_first();
        assert(next == Stage::Finished || (k < 9 && next == script()[k + 1]));
        assert(visited(stage, events) =~= seq![stage] + visited(next, rest));
        if next != Stage::Finished {
            lemma_visited_from(k + 1, rest);
        } else {
            assert(visited(next, rest).len() == 0);
        }
        assert forall|i: int| 0 <= i < visited(stage, events).len() implies #[trigger] visited(
            stage,
            events,
        )[i] == script()[k + i] by {
            if i > 0 {
                assert(visited(stage, events)[i] == visited(next, rest)[i - 1]);
            }
        }
        assert forall|i: int| 0 <= i < visited(stage, events).len() - 1 implies succeeds(
            script()[k + i],
            #[trigger] events[i],
        ) by {
            if i > 0 {
                assert(events[i] == rest[i - 1]);
            }
        }
    }
}

/// The host is asked for the steps of the script in their order, with none
/// left out and none repeated, and for each only after every step before it
/// was reported as a success: what it performs is always a prefix of the
/// script. So a directory is created only after both bundled files were
/// found, the log file is opened only after its directory was created, and
/// the child is started only after the log file was opened and duplicated.
pub proof fn lemma_launch_follows_script<H, E>(events: Seq<LaunchEvent<H, E>>)
    ensures
        visited(Stage::LocateBundle, events).len() <= script().len(),
        visited(Stage::LocateBundle, events).len() <= events.len() + 1,
        forall|i: int|
            0 <= i < visited(Stage::LocateBundle, events).len() ==> #[trigger] visited(
                Stage::LocateBundle,
                events,
            )[i] == script()[i],
        forall|i: int|
            0 <= i < visited(Stage::LocateBundle, events).len() - 1 ==> succeeds(
                script()[i],
                #[trigger] events[i],
            ),
{
    lemma_visited_from(0, events);
}

/// When the entry script is reported absent, the launch performs nothing
/// beyond asking for the resource root and testing for the script: no
/// directory is created, no log file is opened, no child is started, and no
/// child is ever handed out. If the test was reached at all, its answer ends
/// the launch with [`LaunchError::MissingEntryScript`].
pub proof fn lemma_missing_entry_script_stops_launch<H, E>(events: Seq<LaunchEvent<H, E>>)
    requires
        events.len() > 1 ==> events[1] is Absent,
    ensures
        visited(Stage::LocateBundle, events).len() <= 2,
        !visited(Stage::LocateBundle, events).contains(Stage::CreateDataDir),
        !visited(Stage::LocateBundle, events).contains(Stage::CreateLogDir),
        !visited(Stage::LocateBundle, events).contains(Stage::OpenLog),
        !visited(Stage::LocateBundle, events).contains(Stage::Spawn),
        forall|i: int|
            0 <= i < decisions(Stage::LocateBundle, events).len() ==> !(#[trigger] decisions(
                Stage::LocateBundle,
                events,
            )[i] is Launched),
        events.len() > 1 && events[0] is Present ==> decisions(Stage::LocateBundle, events)[1]
            == Step::<H, E>::Aborted(LaunchError::MissingEntryScript),
{
    let seen = visited(Stage::LocateBundle, events);
    let said = decisions(Stage::LocateBundle, events);
    if events.len() == 0 {
        assert(seen =~= seq![Stage::LocateBundle]);
    } else {
        let second = react(Stage::LocateBundle, events[0]).0;
        let rest = events.drop_first();
        assert(seen =~= seq![Stage::LocateBundle] + visited(second, rest));
        assert(said =~= seq![react(Stage::LocateBundle, events[0]).1] + decisions(second, rest));
        if second == Stage::Finished {
            lemma_finished_stays(rest);
            assert(seen =~= seq![Stage::LocateBundle]);
        } else if rest.len() == 0 {
            assert(seen =~= seq![Stage::LocateBundle, Stage::CheckEntryScript]);
        } else {
            assert(rest[0] == events[1]);
            let rest2 = rest.drop_first();
            lemma_finished_stays(rest2);
            assert(visited(second, rest) =~= seq![second] + visited(Stage::Finished, rest2));
            assert(decisions(second, rest) =~= seq![react(second, rest[0]).1] + decisions(
                Stage::Finished,
                rest2,
            ));
            assert(seen =~= seq![Stage::LocateBundle, Stage::CheckEntryScript]);
        }
    }
}

proof fn lemma_launched_from<H, E>(k: int, events: Seq<LaunchEvent<H, E>>, i: int)
    requires
        0 <= k < 10,
        0 <= i < events.len(),
        decisions(script()[k], events)[i] is Launched,
    ensures
        i == 9 - k,
        forall|j: int| 0 <= j < 9 - k ==> succeeds(script()[k + j], #[trigger] events[j]),
        events[i] is Spawned,
        decisions(script()[k], events)[i] == Step::<H, E>::Launched(events[i]->Spawned_0),
        visited(script()[k], events) =~= script().skip(k),
    decreases events.len(),
{
    let stage = script()[k];
    let next = react(stage, events[0]).0;
    let rest = events.drop_first();
    lemma_one_decision_per_report(next, rest);
    assert(decisions(stage, events) =~= seq![react(stage, events[0]).1] + decisions(next, rest));
    assert(visited(stage, events) =~= seq![stage] + visited(next, rest));
    if i == 0 {
        assert(k == 9);
        lemma_finished_stays(rest);
    } else {
        assert(decisions(stage, events)[i] == decisions(next, rest)[i - 1]);
        if next == Stage::Finished {
            lemma_finished_stays(rest);
        } else {
            assert(k < 9 && next == script()[k + 1]);
            lemma_launched_from(k + 1, rest, i - 1);
            assert forall|j: int| 0 <= j < 9 - k implies succeeds(
                script()[k + j],
                #[trigger] events[j],
            ) by {
                if j > 0 {
                    assert(events[j] == rest[j - 1]);
                }
            }
            assert(events[i] == rest[i - 1]);
        }
    }
}

/// A child is handed out by the tenth decision and by no other, and only when
/// each of the nine steps before the spawn was reported as a success: both
/// bundled files were found, both directories were created, and the log file
/// was opened and duplicated, in that order. The handle is the one the host
/// reported.
pub proof fn lemma_launched_after_every_step<H, E>(events: Seq<LaunchEvent<H, E>>, i: int)
    requires
        0 <= i < events.len(),
        decisions(Stage::LocateBundle, events)[i] is Launched,
    ensures
        i == 9,
        forall|j: int| 0 <= j < 9 ==> succeeds(script()[j], #[trigger] events[j]),
        events[9] is Spawned,
        decisions(Stage::LocateBundle, events)[9] == Step::<H, E>::Launched(
            events[9]->Spawned_0,
        ),
        visited(Stage::LocateBundle, events) =~= script(),
{
    lemma_launched_from(0, events, i);
}

/// Once the launch is over, nothing more is performed and every further report
/// is turned away.
pub proof fn lemma_finished_stays<H, E>(events: Seq<LaunchEvent<H, E>>)
    ensures
        visited(Stage::Finished, events).len() == 0,
        decisions(Stage::Finished, events).len() == events.len(),
        forall|i: int|
            0 <= i < events.len() ==> #[trigger] decisions(Stage::Finished, events)[i]
                == Step::Aborted(LaunchError::OutOfTurn { stage: Stage::Finished, event: events[i] }),
    decreases events.len(),
{
    if events.len() > 0 {
        lemma_finished_stays(events.drop_first());
        assert forall|i: int| 0 <= i < events.len() implies #[trigger] decisions(
            Stage::Finished,
            events,
        )[i] == Step::Aborted(
            LaunchError::OutOfTurn { stage: Stage::Finished, event: events[i] },
        ) by {
            if i > 0 {
                assert(decisions(Stage::Finished, events)[i] == decisions(
                    Stage::Finished,
                    events.drop_first(),
                )[i - 1]);
                assert(events.drop_first()[i - 1] == events[i]);
            }
        }
    }
}

/// What is checked and prepared is what the child is given. The program is
/// the runtime that was tested for. The only argument is the name of the entry
/// script that was tested for, and the working directory is the directory it
/// lies in. The data directory that is created is the one named in the
/// child's environment, and the database file lies in it. The data directory
/// is created before the log directory inside it, the log directory before the
/// log file is opened, and the log file before the child starts; the file is
/// opened for appending and is never emptied. The child reads nothing on
/// standard input and writes both output streams to that file, each through a
/// handle of its own.
pub proof fn lemma_child_gets_what_was_prepared(port: u16)
    ensures
        script()[1] == Stage::CheckEntryScript,
        script()[3] == Stage::CheckRuntime,
        script()[5] == Stage::CreateDataDir,
        script()[6] == Stage::CreateLogDir,
        script()[7] == Stage::OpenLog,
        script()[8] == Stage::DuplicateLog,
        script()[9] == Stage::Spawn,
        action_at(Stage::CheckEntryScript, port) == Some(
            LaunchActionView::CheckExists(entry_script()),
        ),
        action_at(Stage::CheckRuntime, port) == Some(LaunchActionView::CheckExists(runtime())),
        server_command(port).program == runtime(),
        server_command(port).args == seq!["server.js"@],
        server_command(port).working_dir.join("server.js"@) == entry_script(),
        action_at(Stage::CreateDataDir, port) == Some(LaunchActionView::CreateDirAll(data_dir())),
        action_at(Stage::CreateLogDir, port) == Some(LaunchActionView::CreateDirAll(log_dir())),
        action_at(Stage::OpenLog, port) == Some(
            LaunchActionView::OpenLog { path: log_file(), mode: log_mode() },
        ),
        log_mode().create && log_mode().append && !log_mode().truncate,
        action_at(Stage::Spawn, port) == Some(LaunchActionView::Spawn(server_command(port))),
        server_command(port).env == server_env(port),
        server_env(port)[4] == path_var("MOONDREAM_DATA_DIR"@, data_dir()),
        server_env(port)[5] == path_var("MOONDREAM_DB_PATH"@, database_file()),
        data_dir().root == Root::AppDataDir,
        data_dir().segments == seq!["data"@],
        log_dir() == data_dir().join("logs"@),
        log_file() == log_dir().join("next-server.log"@),
        database_file() == data_dir().join("moondream.sqlite3"@),
        server_command(port).stdin == Stream::Null,
        server_command(port).stdout == Stream::Log,
        server_command(port).stderr == Stream::LogDuplicate,
{
    assert(data_dir().segments =~= seq!["data"@]);
}

} // verus!
