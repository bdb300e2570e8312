use server_supervisor::command::build_server_command;
use server_supervisor::launch::{
    LaunchAction, LaunchError, LaunchEvent, Launcher, OpenMode, Stage, Step,
};
use server_supervisor::paths::{
    data_dir_path, entry_script_path, log_dir_path, log_file_path, runtime_path, Root,
};

type Event = LaunchEvent<u32, String>;
type Outcome = Step<u32, String>;
type Failure = LaunchError<u32, String>;

const SCRIPT: [Stage; 10] = [
    Stage::LocateBundle,
    Stage::CheckEntryScript,
    Stage::LocateRuntime,
    Stage::CheckRuntime,
    Stage::LocateDataRoot,
    Stage::CreateDataDir,
    Stage::CreateLogDir,
    Stage::OpenLog,
    Stage::DuplicateLog,
    Stage::Spawn,
];

fn success_at(index: usize) -> Event {
    if index < 5 {
        LaunchEvent::Present
    } else if index < 9 {
        LaunchEvent::Done
    } else {
        LaunchEvent::Spawned(77)
    }
}

fn launcher_at(index: usize, port: u16) -> Launcher {
    let mut launcher = Launcher::new(port);
    for i in 0..index {
        let expected = if i < 9 { Outcome::Continue } else { Outcome::Launched(77) };
        assert_eq!(launcher.advance(success_at(i)), expected);
    }
    launcher
}

fn run(port: u16, events: Vec<Event>) -> (Vec<LaunchAction>, Vec<Outcome>, Launcher) {
    let mut launcher = Launcher::new(port);
    let mut performed = Vec::new();
    let mut decided = Vec::new();
    for event in events {
        if let Some(action) = launcher.pending() {
            performed.push(action);
        }
        decided.push(launcher.advance(event));
    }
    (performed, decided, launcher)
}

#[test]
fn a_new_launcher_asks_for_the_resource_root() {
    let launcher = Launcher::new(3210);
    assert_eq!(launcher.stage(), Stage::LocateBundle);
    assert!(!launcher.is_finished());
    assert_eq!(launcher.pending(), Some(LaunchAction::ResolveRoot(Root::ResourceDir)));
}

#[test]
fn each_stage_names_its_action() {
    let expected = vec![
        LaunchAction::ResolveRoot(Root::ResourceDir),
        LaunchAction::CheckExists(entry_script_path()),
        LaunchAction::ResolveRoot(Root::ResourceDir),
        LaunchAction::CheckExists(runtime_path()),
        LaunchAction::ResolveRoot(Root::AppDataDir),
        LaunchAction::CreateDirAll(data_dir_path()),
        LaunchAction::CreateDirAll(log_dir_path()),
        LaunchAction::OpenLog {
            path: log_file_path(),
            mode: OpenMode { create: true, append: true, truncate: false },
        },
        LaunchAction::DuplicateLog,
        LaunchAction::Spawn(build_server_command(4242)),
    ];
    for (index, action) in expected.into_iter().enumerate() {
        let launcher = launcher_at(index, 4242);
        assert_eq!(launcher.stage(), SCRIPT[index]);
        assert_eq!(launcher.pending(), Some(action));
    }
}

#[test]
fn the_log_is_opened_for_append_and_never_truncated() {
    let launcher = launcher_at(7, 3210);
    match launcher.pending() {
        Some(LaunchAction::OpenLog { path, mode }) => {
            assert_eq!(path, log_file_path());
            assert!(mode.create);
            assert!(mode.append);
            assert!(!mode.truncate);
        },
        other => panic!("unexpected action {:?}", other),
    }
}

#[test]
fn a_launch_without_failures_hands_out_the_child_after_ten_steps() {
    let events: Vec<Event> = (0..10).map(success_at).collect();
    let (performed, decided, launcher) = run(5000, events);
    assert_eq!(performed.len(), 10);
    assert_eq!(performed[9], LaunchAction::Spawn(build_server_command(5000)));
    for step in &decided[..9] {
        assert_eq!(*step, Outcome::Continue);
    }
    assert_eq!(decided[9], Outcome::Launched(77));
    assert!(launcher.is_finished());
    assert_eq!(launcher.pending(), None);
    assert_eq!(launcher.port(), 5000);
}

#[test]
fn the_port_of_a_launch_never_changes() {
    let mut launcher = Launcher::new(6001);
    for index in 0..10 {
        assert_eq!(launcher.port(), 6001);
        launcher.advance(success_at(index));
    }
    assert_eq!(launcher.port(), 6001);
}

#[test]
fn missing_resource_root_ends_the_launch_at_once() {
    let (performed, decided, launcher) = run(3210, vec![LaunchEvent::Absent]);
    assert_eq!(performed, vec![LaunchAction::ResolveRoot(Root::ResourceDir)]);
    assert_eq!(decided, vec![Outcome::Aborted(LaunchError::MissingResourceDir)]);
    assert!(launcher.is_finished());
}

#[test]
fn missing_entry_script_ends_the_launch_before_anything_is_created() {
    let (performed, decided, launcher) =
        run(3210, vec![LaunchEvent::Present, LaunchEvent::Absent]);
    assert_eq!(
        performed,
        vec![
            LaunchAction::ResolveRoot(Root::ResourceDir),
            LaunchAction::CheckExists(entry_script_path()),
        ]
    );
    assert_eq!(
        decided,
        vec![Outcome::Continue, Outcome::Aborted(LaunchError::MissingEntryScript)]
    );
    assert!(launcher.is_finished());
    assert_eq!(launcher.pending(), None);
    for action in &performed {
        assert!(!matches!(
            action,
            LaunchAction::CreateDirAll(_)
                | LaunchAction::OpenLog { .. }
                | LaunchAction::DuplicateLog
                | LaunchAction::Spawn(_)
        ));
    }
}

#[test]
fn missing_entry_script_cannot_be_talked_into_a_spawn_afterwards() {
    let mut events: Vec<Event> = vec![LaunchEvent::Present, LaunchEvent::Absent];
    events.extend((2..10).map(success_at));
    let (performed, decided, _) = run(3210, events);
    assert_eq!(performed.len(), 2);
    for step in &decided {
        assert!(!matches!(step, Outcome::Launched(_)));
    }
    for step in &decided[2..] {
        assert!(matches!(
            step,
            Outcome::Aborted(LaunchError::OutOfTurn { stage: Stage::Finished, .. })
        ));
    }
}

#[test]
fn missing_resource_root_for_the_runtime_has_its_own_error() {
    let mut launcher = launcher_at(2, 3210);
    assert_eq!(
        launcher.advance(LaunchEvent::Absent),
        Outcome::Aborted(LaunchError::MissingResourceDirForRuntime)
    );
    assert!(launcher.is_finished());
}

#[test]
fn missing_runtime_ends_the_launch() {
    let mut launcher = launcher_at(3, 3210);
    assert_eq!(
        launcher.advance(LaunchEvent::Absent),
        Outcome::Aborted(LaunchError::MissingRuntime)
    );
    assert!(launcher.is_finished());
}

#[test]
fn missing_data_root_ends_the_launch() {
    let mut launcher = launcher_at(4, 3210);
    assert_eq!(
        launcher.advance(LaunchEvent::Absent),
        Outcome::Aborted(LaunchError::MissingAppDataDir)
    );
    assert!(launcher.is_finished());
}

#[test]
fn a_failed_operation_ends_the_launch_with_the_hosts_error() {
    for index in 5..9 {
        let mut launcher = launcher_at(index, 3210);
        let step = launcher.advance(LaunchEvent::Failed("denied".to_string()));
        assert_eq!(
            step,
            Outcome::Aborted(LaunchError::Io { stage: SCRIPT[index], cause: "denied".to_string() })
        );
        assert!(launcher.is_finished());
        assert_eq!(launcher.pending(), None);
    }
}

#[test]
fn a_failed_spawn_ends_the_launch_with_the_hosts_error() {
    let mut launcher = launcher_at(9, 3210);
    let step = launcher.advance(LaunchEvent::Failed("no such file".to_string()));
    assert_eq!(
        step,
        Outcome::Aborted(LaunchError::Io {
            stage: Stage::Spawn,
            cause: "no such file".to_string()
        })
    );
    assert!(launcher.is_finished());
}

#[test]
fn a_failed_log_directory_means_no_log_file_and_no_child() {
    let events: Vec<Event> = vec![
        LaunchEvent::Present,
        LaunchEvent::Present,
        LaunchEvent::Present,
        LaunchEvent::Present,
        LaunchEvent::Present,
        LaunchEvent::Done,
        LaunchEvent::Failed("read-only".to_string()),
    ];
    let (performed, decided, _) = run(3210, events);
    assert_eq!(performed.len(), 7);
    assert_eq!(performed[6], LaunchAction::CreateDirAll(log_dir_path()));
    assert_eq!(
        decided[6],
        Outcome::Aborted(LaunchError::Io {
            stage: Stage::CreateLogDir,
            cause: "read-only".to_string()
        })
    );
}

#[test]
fn a_query_turns_away_reports_that_do_not_answer_it() {
    for index in 0..5 {
        for event in [
            LaunchEvent::Done,
            LaunchEvent::Failed("x".to_string()),
            LaunchEvent::Spawned(5),
        ] {
            let mut launcher = launcher_at(index, 3210);
            let kept = match &event {
                LaunchEvent::Done => LaunchEvent::Done,
                LaunchEvent::Failed(cause) => LaunchEvent::Failed(cause.clone()),
                LaunchEvent::Spawned(child) => LaunchEvent::Spawned(*child),
                LaunchEvent::Present => LaunchEvent::Present,
                LaunchEvent::Absent => LaunchEvent::Absent,
            };
            assert_eq!(
                launcher.advance(event),
                Outcome::Aborted(LaunchError::OutOfTurn { stage: SCRIPT[index], event: kept })
            );
            assert!(launcher.is_finished());
        }
    }
}

#[test]
fn an_operation_turns_away_reports_that_do_not_answer_it() {
    for index in 5..9 {
        let mut launcher = launcher_at(index, 3210);
        assert_eq!(
            launcher.advance(LaunchEvent::Present),
            Outcome::Aborted(LaunchError::OutOfTurn {
                stage: SCRIPT[index],
                event: LaunchEvent::Present
            })
        );
        let mut launcher = launcher_at(index, 3210);
        assert_eq!(
            launcher.advance(LaunchEvent::Absent),
            Outcome::Aborted(LaunchError::OutOfTurn {
                stage: SCRIPT[index],
                event: LaunchEvent::Absent
            })
        );
        let mut launcher = launcher_at(index, 3210);
        assert_eq!(
            launcher.advance(LaunchEvent::Spawned(9)),
            Outcome::Aborted(LaunchError::OutOfTurn {
                stage: SCRIPT[index],
                event: LaunchEvent::Spawned(9)
            })
        );
        assert!(launcher.is_finished());
    }
}

#[test]
fn the_spawn_turns_away_reports_that_do_not_answer_it() {
    let mut launcher = launcher_at(9, 3210);
    assert_eq!(
        launcher.advance(LaunchEvent::Done),
        Outcome::Aborted(LaunchError::OutOfTurn { stage: Stage::Spawn, event: LaunchEvent::Done })
    );
    assert!(launcher.is_finished());
    let mut launcher = launcher_at(9, 3210);
    assert_eq!(
        launcher.advance(LaunchEvent::Present),
        Outcome::Aborted(LaunchError::OutOfTurn {
            stage: Stage::Spawn,
            event: LaunchEvent::Present
        })
    );
}

#[test]
fn a_child_reported_too_early_is_handed_back_in_the_error() {
    let mut launcher = launcher_at(7, 3210);
    let step = launcher.advance(LaunchEvent::Spawned(31));
    match step {
        Outcome::Aborted(LaunchError::OutOfTurn { stage, event: LaunchEvent::Spawned(child) }) => {
            assert_eq!(stage, Stage::OpenLog);
            assert_eq!(child, 31);
        },
        other => panic!("unexpected step {:?}", other),
    }
}

#[test]
fn a_finished_launcher_turns_every_report_away() {
    let mut launcher = launcher_at(10, 3210);
    assert!(launcher.is_finished());
    assert_eq!(launcher.stage(), Stage::Finished);
    assert_eq!(launcher.pending(), None);
    assert_eq!(
        launcher.advance(LaunchEvent::Spawned(2)),
        Outcome::Aborted(LaunchError::OutOfTurn {
            stage: Stage::Finished,
            event: LaunchEvent::Spawned(2)
        })
    );
    assert_eq!(
        launcher.advance(LaunchEvent::Present),
        Outcome::Aborted(LaunchError::OutOfTurn {
            stage: Stage::Finished,
            event: LaunchEvent::Present
        })
    );
    assert!(launcher.is_finished());
}

#[test]
fn whatever_is_reported_the_actions_follow_the_script() {
    let alphabet = |code: u32| -> Event {
        match code % 5 {
            0 => LaunchEvent::Present,
            1 => LaunchEvent::Absent,
            2 => LaunchEvent::Done,
            3 => LaunchEvent::Failed("e".to_string()),
            _ => LaunchEvent::Spawned(code),
        }
    };
    for seed in 0u32..3000 {
        let mut launcher = Launcher::new(3210);
        let mut index = 0usize;
        let mut code = seed;
        let mut launched = 0;
        for _ in 0..14 {
            match launcher.pending() {
                Some(_) => {
                    assert_eq!(launcher.stage(), SCRIPT[index]);
                    index += 1;
                },
                None => assert!(launcher.is_finished()),
            }
            let event = if seed % 3 == 0 && (1..=10).contains(&index) {
                success_at(index - 1)
            } else {
                alphabet(code)
            };
            code = code.wrapping_mul(1103515245).wrapping_add(12345) >> 3;
            if let Outcome::Launched(_) = launcher.advance(event) {
                launched += 1;
                assert_eq!(index, 10);
            }
        }
        assert!(launched <= 1);
    }
}

#[test]
fn messages_of_the_five_resolution_errors() {
    let shown = "/opt/app/resources/next/server.js";
    assert_eq!(
        Failure::MissingResourceDir.message(shown),
        Some("Missing resource_dir".to_string())
    );
    assert_eq!(
        Failure::MissingEntryScript.message(shown),
        Some("Missing Next server bundle at /opt/app/resources/next/server.js".to_string())
    );
    assert_eq!(
        Failure::MissingResourceDirForRuntime.message(shown),
        Some("Missing resource_dir (bin/node)".to_string())
    );
    assert_eq!(
        Failure::MissingRuntime.message("C:\\app\\resources\\bin/node"),
        Some("Missing bundled Node at C:\\app\\resources\\bin/node".to_string())
    );
    assert_eq!(
        Failure::MissingAppDataDir.message(shown),
        Some("Missing app_data_dir".to_string())
    );
}

#[test]
fn the_host_speaks_for_its_own_errors_and_for_stray_reports() {
    let io: Failure = LaunchError::Io { stage: Stage::OpenLog, cause: "denied".to_string() };
    assert_eq!(io.message("anything"), None);
    let stray: Failure =
        LaunchError::OutOfTurn { stage: Stage::Spawn, event: LaunchEvent::Present };
    assert_eq!(stray.message("anything"), None);
}

#[test]
fn only_the_two_file_errors_name_a_missing_file() {
    assert_eq!(Failure::MissingEntryScript.missing_file(), Some(entry_script_path()));
    assert_eq!(Failure::MissingRuntime.missing_file(), Some(runtime_path()));
    assert_eq!(Failure::MissingResourceDir.missing_file(), None);
    assert_eq!(Failure::MissingResourceDirForRuntime.missing_file(), None);
    assert_eq!(Failure::MissingAppDataDir.missing_file(), None);
    let io: Failure = LaunchError::Io { stage: Stage::Spawn, cause: String::new() };
    assert_eq!(io.missing_file(), None);
    let stray: Failure = LaunchError::OutOfTurn { stage: Stage::Spawn, event: LaunchEvent::Done };
    assert_eq!(stray.missing_file(), None);
}
