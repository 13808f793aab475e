use ignore::gitignore::GitignoreBuilder;
use watchdog::args_opt::ArgsOpt;
use watchdog::config::{ignore_files, Config, FileSource};
use watchdog::file_opt::{Extendable, ExtendableType, FileOpt, FileOptExclude, FileOptExec,
    FileOptExecPre, FileOptExecPreCommand, FileOptExtend, FileOptWhen, GitignoreSerde,
    IgnorablePath};
use watchdog::watch::{should_ignore_event, should_reload_config, Action, Event, EventKind,
    Reaction, Supervisor, DEBOUNCE_WINDOW_MS};

fn empty_args() -> ArgsOpt {
    ArgsOpt { exec_opt: None, exec_pre: None, exclude: None, extend: None }
}

fn empty_file() -> FileOpt {
    FileOpt { exec_opt: None, exec_pre: None, exclude: None, extend: None }
}

fn config_with(file_opt: FileOpt) -> Config {
    Config::new(
        Some(String::from("/repo\n")),
        None,
        FileSource::Parsed(file_opt),
        empty_args(),
        None,
    )
    .unwrap()
}

fn exclude_git_config() -> Config {
    config_with(FileOpt {
        exec_opt: Some(FileOptExec {
            command: Some(String::from("echo")),
            args: Some(vec![String::from("hi")]),
            origin: Some(String::from("/repo")),
        }),
        exclude: Some(FileOptExclude {
            files: vec![IgnorablePath { path: String::from(".git") }],
        }),
        ..empty_file()
    })
}

fn modify_event(path: &str) -> Event {
    Event { kind: EventKind::ModifyData, paths: vec![String::from(path)] }
}

#[test]
fn classification_is_deterministic() {
    let config = exclude_git_config();
    let event = modify_event("/repo/.git/HEAD");
    let first = should_ignore_event(&config, &event, false);
    let second = should_ignore_event(&config, &event, false);
    assert_eq!(first, second);
    assert!(first);
}

#[test]
fn substring_excludes_anywhere_in_path() {
    let config = exclude_git_config();
    assert!(should_ignore_event(&config, &modify_event("/repo/.git/HEAD"), false));
    assert!(should_ignore_event(&config, &modify_event("/other/.gitmodules"), false));
    assert!(!should_ignore_event(&config, &modify_event("/repo/src/main.x"), false));
}

#[test]
fn one_acted_upon_path_decides_the_event() {
    let config = exclude_git_config();
    let all_ignored = Event {
        kind: EventKind::ModifyData,
        paths: vec![String::from("/repo/.git/HEAD"), String::from("/repo/.git/index")],
    };
    assert!(should_ignore_event(&config, &all_ignored, false));
    let one_acted = Event {
        kind: EventKind::ModifyData,
        paths: vec![String::from("/repo/.git/HEAD"), String::from("/repo/src/lib.x")],
    };
    assert!(!should_ignore_event(&config, &one_acted, false));
}

#[test]
fn gitignore_matcher_classifies_paths() {
    let mut builder = GitignoreBuilder::new("/repo");
    builder.add_line(None, "*.log").unwrap();
    let gitignore = builder.build().unwrap();
    let matcher = ExtendableType::Git(GitignoreSerde(gitignore));
    assert!(matcher.matcher("/repo/out/build.log", false));
    assert!(!matcher.matcher("/repo/src/main.x", false));
    // An absolute path outside the matcher's root matches nothing.
    assert!(!matcher.matcher("/elsewhere/build.log", false));
}

#[test]
fn matcher_declines_paths_it_cannot_safely_query() {
    // These path shapes would make the matcher's own stripping leave an
    // absolute remainder (on which the underlying call panics): they are
    // answered with no match instead of being queried.
    let mut builder = GitignoreBuilder::new("/repo");
    builder.add_line(None, "*.log").unwrap();
    let gitignore = builder.build().unwrap();
    let matcher = ExtendableType::Git(GitignoreSerde(gitignore));
    assert!(!matcher.matcher(".//x", false));
    assert!(!matcher.matcher("/repo//build.log", false));
    // An ordinary relative path is still queried.
    assert!(matcher.matcher("out/build.log", false));
    assert!(matcher.matcher("./out/build.log", false));
}

#[test]
fn extend_matchers_combine_with_excludes_by_or() {
    let mut builder = GitignoreBuilder::new("/repo");
    builder.add_line(None, "*.log").unwrap();
    let gitignore = builder.build().unwrap();
    let config = config_with(FileOpt {
        exclude: Some(FileOptExclude {
            files: vec![IgnorablePath { path: String::from(".git") }],
        }),
        extend: Some(FileOptExtend {
            extendables: vec![ExtendableType::Git(GitignoreSerde(gitignore))],
        }),
        ..empty_file()
    });
    assert!(should_ignore_event(&config, &modify_event("/repo/.git/HEAD"), false));
    assert!(should_ignore_event(&config, &modify_event("/repo/out/build.log"), false));
    assert!(!should_ignore_event(&config, &modify_event("/repo/src/main.x"), false));
}

#[test]
fn folder_hint_reaches_directory_only_patterns() {
    // A directory-only gitignore pattern matches only under is_dir = true,
    // which Create events derive from their folder sub-variant.
    let mut builder = GitignoreBuilder::new("/repo");
    builder.add_line(None, "build/").unwrap();
    let gitignore = builder.build().unwrap();
    let config = config_with(FileOpt {
        extend: Some(FileOptExtend {
            extendables: vec![ExtendableType::Git(GitignoreSerde(gitignore))],
        }),
        ..empty_file()
    });
    let folder_event = Event {
        kind: EventKind::Create { folder: true },
        paths: vec![String::from("/repo/build")],
    };
    let file_event = Event {
        kind: EventKind::Create { folder: false },
        paths: vec![String::from("/repo/build")],
    };
    assert!(should_ignore_event(&config, &folder_event, true));
    assert!(!should_ignore_event(&config, &file_event, false));
}

#[test]
fn metadata_access_and_unknown_events_are_ignored_unconditionally() {
    let config = exclude_git_config();
    let mut sup = Supervisor::new();
    for kind in [EventKind::ModifyMetadata, EventKind::Access, EventKind::Other] {
        let event = Event { kind, paths: vec![String::from("/repo/src/main.x")] };
        let reaction = sup.event_handler(&config, &event, 0);
        assert!(matches!(reaction, Reaction::Ignored));
    }
}

#[test]
fn should_reload_config_matches_file_name_only() {
    let hit = Event {
        kind: EventKind::ModifyData,
        paths: vec![String::from("/repo/watchdog.toml")],
    };
    assert!(should_reload_config(&hit));
    let trailing = Event {
        kind: EventKind::ModifyData,
        paths: vec![String::from("/repo/watchdog.toml/")],
    };
    assert!(should_reload_config(&trailing));
    let miss = Event {
        kind: EventKind::ModifyData,
        paths: vec![String::from("/repo/watchdog.toml.bak"), String::from("/repo/src/a.x")],
    };
    assert!(!should_reload_config(&miss));
}

#[test]
fn restart_kills_and_waits_before_spawn() {
    let config = exclude_git_config();
    let mut sup = Supervisor::new();
    // First launch: no child to kill.
    let plan = sup.exec_plan(&config);
    assert!(matches!(plan.last().unwrap(), Action::Spawn { .. }));
    sup.confirm_spawn(true);
    assert!(sup.child_running());
    // A qualifying event: the prologue terminates the running child first.
    let reaction = sup.event_handler(&config, &modify_event("/repo/src/main.x"), 1_000);
    match reaction {
        Reaction::Restart { prologue, reload } => {
            assert!(!reload);
            assert_eq!(prologue.len(), 2);
            assert!(matches!(prologue[0], Action::KillChild));
            assert!(matches!(prologue[1], Action::WaitChild));
        }
        _ => panic!("expected a restart"),
    }
    assert!(!sup.child_running());
    let plan = sup.exec_plan(&config);
    assert!(matches!(plan.last().unwrap(), Action::Spawn { .. }));
}

#[test]
fn restart_on_config_file_requests_reload() {
    let config = exclude_git_config();
    let mut sup = Supervisor::new();
    let event = Event {
        kind: EventKind::ModifyData,
        paths: vec![String::from("/repo/watchdog.toml")],
    };
    let reaction = sup.event_handler(&config, &event, 0);
    match reaction {
        Reaction::Restart { prologue, reload } => {
            assert!(reload);
            assert!(prologue.is_empty());
        }
        _ => panic!("expected a restart"),
    }
}

fn count_pre(plan: &[Action]) -> usize {
    plan.iter().filter(|a| matches!(a, Action::RunPre { .. })).count()
}

fn pre_config(when: FileOptWhen) -> Config {
    config_with(FileOpt {
        exec_opt: Some(FileOptExec {
            command: Some(String::from("run")),
            args: None,
            origin: None,
        }),
        exec_pre: Some(FileOptExecPre {
            origin: Some(String::from("/repo")),
            when: Some(when),
            commands: Some(vec![FileOptExecPreCommand {
                command: Some(String::from("build")),
                args: Some(vec![String::from("--fast")]),
            }]),
        }),
        ..empty_file()
    })
}

#[test]
fn pre_exec_once_runs_only_before_first_launch() {
    let config = pre_config(FileOptWhen::Once);
    let mut sup = Supervisor::new();
    let mut total = 0;
    for _ in 0..3 {
        let plan = sup.exec_plan(&config);
        total += count_pre(&plan);
        sup.confirm_spawn(false);
    }
    assert_eq!(total, 1);
}

#[test]
fn pre_exec_always_runs_before_each_launch() {
    let config = pre_config(FileOptWhen::Always);
    let mut sup = Supervisor::new();
    let mut total = 0;
    for _ in 0..3 {
        let plan = sup.exec_plan(&config);
        total += count_pre(&plan);
        sup.confirm_spawn(false);
    }
    assert_eq!(total, 3);
}

#[test]
fn pre_exec_commands_run_in_declared_order_at_origin() {
    let config = config_with(FileOpt {
        exec_opt: Some(FileOptExec {
            command: Some(String::from("run")),
            args: None,
            origin: None,
        }),
        exec_pre: Some(FileOptExecPre {
            origin: Some(String::from("/repo/sub")),
            when: Some(FileOptWhen::Always),
            commands: Some(vec![
                FileOptExecPreCommand { command: Some(String::from("first")), args: None },
                FileOptExecPreCommand { command: Some(String::from("second")), args: None },
            ]),
        }),
        ..empty_file()
    });
    let mut sup = Supervisor::new();
    let plan = sup.exec_plan(&config);
    let pres: Vec<&Action> =
        plan.iter().filter(|a| matches!(a, Action::RunPre { .. })).collect();
    assert_eq!(pres.len(), 2);
    match pres[0] {
        Action::RunPre { command, origin, .. } => {
            assert_eq!(command, "first");
            assert_eq!(origin, "/repo/sub");
        }
        _ => unreachable!(),
    }
    match pres[1] {
        Action::RunPre { command, .. } => assert_eq!(command, "second"),
        _ => unreachable!(),
    }
}

#[test]
fn debounce_burst_yields_one_restart() {
    let config = exclude_git_config();
    let mut sup = Supervisor::new();
    let mut restarts = 0;
    // Five qualifying events inside the window after the first.
    let times = [10_000u64, 10_050, 10_150, 10_300, 10_499];
    for t in times {
        let reaction = sup.event_handler(&config, &modify_event("/repo/src/main.x"), t);
        if matches!(reaction, Reaction::Restart { .. }) {
            restarts += 1;
            let _ = sup.exec_plan(&config);
            sup.confirm_spawn(true);
        }
    }
    assert_eq!(restarts, 1);
}

#[test]
fn event_after_window_reacts_again() {
    let config = exclude_git_config();
    let mut sup = Supervisor::new();
    let first = sup.event_handler(&config, &modify_event("/repo/src/main.x"), 1_000);
    assert!(matches!(first, Reaction::Restart { .. }));
    let at_boundary =
        sup.event_handler(&config, &modify_event("/repo/src/main.x"), 1_000 + DEBOUNCE_WINDOW_MS);
    assert!(matches!(at_boundary, Reaction::Restart { .. }));
}

#[test]
fn end_to_end_example() {
    // Config: exec.command = "echo", exec.args = ["hi"],
    // exclude.files = [{path: ".git"}].
    let config = exclude_git_config();
    let mut sup = Supervisor::new();
    let plan = sup.exec_plan(&config);
    sup.confirm_spawn(true);
    match plan.last().unwrap() {
        Action::Spawn { command, args, origin } => {
            assert_eq!(command, "echo");
            assert_eq!(args, &vec![String::from("hi")]);
            assert_eq!(origin, "/repo");
        }
        _ => panic!("expected a spawn"),
    }
    // An event on /repo/.git/HEAD: ignored, no restart.
    let ignored = sup.event_handler(&config, &modify_event("/repo/.git/HEAD"), 50_000);
    assert!(matches!(ignored, Reaction::Ignored));
    assert!(sup.child_running());
    // An event on /repo/src/main.x: the prior child is killed and a new
    // `echo hi` child is launched in the root directory.
    let reaction = sup.event_handler(&config, &modify_event("/repo/src/main.x"), 60_000);
    match reaction {
        Reaction::Restart { prologue, reload } => {
            assert!(!reload);
            assert!(matches!(prologue[0], Action::KillChild));
            assert!(matches!(prologue[1], Action::WaitChild));
        }
        _ => panic!("expected a restart"),
    }
    let plan = sup.exec_plan(&config);
    match plan.last().unwrap() {
        Action::Spawn { command, args, origin } => {
            assert_eq!(command, "echo");
            assert_eq!(args, &vec![String::from("hi")]);
            assert_eq!(origin, "/repo");
        }
        _ => panic!("expected a spawn"),
    }
    sup.confirm_spawn(true);
}

#[test]
fn ignore_files_returns_configured_excludes() {
    let config = exclude_git_config();
    assert_eq!(ignore_files(config), vec![String::from(".git")]);
}
