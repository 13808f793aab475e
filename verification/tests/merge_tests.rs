use watchdog::args_opt::{ArgsOpt, ArgsOptExec, ArgsOptExecPre, ArgsOptWhen};
use watchdog::config::{parse_command_string, resolve_root, Config, ConfigError, ExecPreCommand,
    FileSource, When};
use watchdog::file_opt::{FileOpt, FileOptExec, FileOptExecPre, FileOptExecPreCommand,
    FileOptExclude, FileOptWhen, IgnorablePath};

fn empty_args() -> ArgsOpt {
    ArgsOpt { exec_opt: None, exec_pre: None, exclude: None, extend: None }
}

fn empty_file() -> FileOpt {
    FileOpt { exec_opt: None, exec_pre: None, exclude: None, extend: None }
}

fn new_config(file_opt: FileOpt, args_opt: ArgsOpt) -> Config {
    Config::new(
        None,
        Some(String::from("/repo")),
        FileSource::Parsed(file_opt),
        args_opt,
        None,
    )
    .unwrap()
}

#[test]
fn merge_cli_wins_on_both() {
    let file_opt = FileOpt {
        exec_opt: Some(FileOptExec {
            command: Some(String::from("cargo")),
            args: Some(vec![String::from("build")]),
            origin: Some(String::from("file-origin")),
        }),
        ..empty_file()
    };
    let args_opt = ArgsOpt {
        exec_opt: Some(ArgsOptExec {
            exec_str: Some(String::from("cargo run --release")),
            origin: Some(String::from("cli-origin")),
        }),
        ..empty_args()
    };
    let config = new_config(file_opt, args_opt);
    assert_eq!(config.to_exec().command(), "cargo");
    assert_eq!(
        config.to_exec().args(),
        &vec![String::from("run"), String::from("--release")]
    );
    assert_eq!(config.to_exec().origin(), "cli-origin");
}

#[test]
fn merge_file_value_kept_when_cli_unset() {
    let file_opt = FileOpt {
        exec_opt: Some(FileOptExec {
            command: Some(String::from("make")),
            args: Some(vec![String::from("all")]),
            origin: Some(String::from("sub")),
        }),
        ..empty_file()
    };
    let config = new_config(file_opt, empty_args());
    assert_eq!(config.to_exec().command(), "make");
    assert_eq!(config.to_exec().args(), &vec![String::from("all")]);
    assert_eq!(config.to_exec().origin(), "sub");
}

#[test]
fn merge_cli_field_unset_leaves_file_field() {
    // CLI supplies only the origin: the file's command and args stay.
    let file_opt = FileOpt {
        exec_opt: Some(FileOptExec {
            command: Some(String::from("make")),
            args: Some(vec![String::from("all")]),
            origin: None,
        }),
        ..empty_file()
    };
    let args_opt = ArgsOpt {
        exec_opt: Some(ArgsOptExec { exec_str: None, origin: Some(String::from("cli")) }),
        ..empty_args()
    };
    let config = new_config(file_opt, args_opt);
    assert_eq!(config.to_exec().command(), "make");
    assert_eq!(config.to_exec().args(), &vec![String::from("all")]);
    assert_eq!(config.to_exec().origin(), "cli");
}

#[test]
fn merge_neither_source_resets_to_empty() {
    let config = new_config(empty_file(), empty_args());
    assert_eq!(config.to_exec().command(), "");
    assert!(config.to_exec().args().is_empty());
    assert_eq!(config.to_exec().origin(), "");
    assert!(config.to_exec_pre().is_none());
    assert!(config.to_exclude().to_exclude_files().is_empty());
    assert!(config.to_extend().to_extendables().is_empty());
}

#[test]
fn merge_exclude_cli_replaces_file_list() {
    let file_opt = FileOpt {
        exclude: Some(FileOptExclude {
            files: vec![IgnorablePath { path: String::from(".git") }],
        }),
        ..empty_file()
    };
    let args_opt = ArgsOpt { exclude: Some(vec![String::from("target")]), ..empty_args() };
    let config = new_config(file_opt, args_opt);
    assert_eq!(config.to_exclude().to_exclude_files(), &vec![String::from("target")]);
}

#[test]
fn merge_exclude_file_only() {
    let file_opt = FileOpt {
        exclude: Some(FileOptExclude {
            files: vec![
                IgnorablePath { path: String::from(".git") },
                IgnorablePath { path: String::from("target") },
            ],
        }),
        ..empty_file()
    };
    let config = new_config(file_opt, empty_args());
    assert_eq!(
        config.to_exclude().to_exclude_files(),
        &vec![String::from(".git"), String::from("target")]
    );
}

#[test]
fn merge_exec_pre_policy_cli_wins() {
    let file_opt = FileOpt {
        exec_pre: Some(FileOptExecPre {
            origin: Some(String::from("pre-dir")),
            when: Some(FileOptWhen::Always),
            commands: Some(vec![FileOptExecPreCommand {
                command: Some(String::from("cargo")),
                args: Some(vec![String::from("check")]),
            }]),
        }),
        ..empty_file()
    };
    let args_opt = ArgsOpt {
        exec_pre: Some(ArgsOptExecPre {
            exec_pre: None,
            when: Some(ArgsOptWhen::Once),
            origin_pre: None,
        }),
        ..empty_args()
    };
    let config = new_config(file_opt, args_opt);
    let pre = config.to_exec_pre().as_ref().unwrap();
    assert!(matches!(pre.when(), When::Once));
    assert_eq!(pre.origin(), "pre-dir");
    assert_eq!(pre.commands().len(), 1);
    assert_eq!(pre.commands()[0].command(), "cargo");
    assert_eq!(pre.commands()[0].args(), &vec![String::from("check")]);
}

#[test]
fn merge_exec_pre_cli_commands_replace_file_commands() {
    let file_opt = FileOpt {
        exec_pre: Some(FileOptExecPre {
            origin: None,
            when: None,
            commands: Some(vec![FileOptExecPreCommand {
                command: Some(String::from("old")),
                args: None,
            }]),
        }),
        ..empty_file()
    };
    let args_opt = ArgsOpt {
        exec_pre: Some(ArgsOptExecPre {
            exec_pre: Some(vec![String::from("cargo build"), String::from("cargo test")]),
            when: None,
            origin_pre: None,
        }),
        ..empty_args()
    };
    let config = new_config(file_opt, args_opt);
    let pre = config.to_exec_pre().as_ref().unwrap();
    assert!(matches!(pre.when(), When::Always));
    assert_eq!(pre.commands().len(), 2);
    assert_eq!(pre.commands()[0].command(), "cargo");
    assert_eq!(pre.commands()[0].args(), &vec![String::from("build")]);
    assert_eq!(pre.commands()[1].command(), "cargo");
    assert_eq!(pre.commands()[1].args(), &vec![String::from("test")]);
}

#[test]
fn merge_exec_pre_empty_cli_command_keeps_file_commands() {
    // One empty CLI pre-exec command string fails conversion: the file's
    // command list stays.
    let file_opt = FileOpt {
        exec_pre: Some(FileOptExecPre {
            origin: None,
            when: None,
            commands: Some(vec![FileOptExecPreCommand {
                command: Some(String::from("keepme")),
                args: None,
            }]),
        }),
        ..empty_file()
    };
    let args_opt = ArgsOpt {
        exec_pre: Some(ArgsOptExecPre {
            exec_pre: Some(vec![String::from("cargo build"), String::new()]),
            when: None,
            origin_pre: None,
        }),
        ..empty_args()
    };
    let config = new_config(file_opt, args_opt);
    let pre = config.to_exec_pre().as_ref().unwrap();
    assert_eq!(pre.commands().len(), 1);
    assert_eq!(pre.commands()[0].command(), "keepme");
}

#[test]
fn parse_command_string_splits_on_whitespace() {
    let (command, args) = parse_command_string(String::from("cargo  run\t--release"));
    assert_eq!(command, Some(String::from("cargo")));
    assert_eq!(args, vec![String::from("run"), String::from("--release")]);
}

#[test]
fn parse_command_string_empty_yields_nothing() {
    let (command, args) = parse_command_string(String::new());
    assert!(command.is_none());
    assert!(args.is_empty());
}

#[test]
fn try_from_command_string_rejects_empty() {
    assert!(ExecPreCommand::try_from_command_string(String::new()).is_err());
    let cmd = ExecPreCommand::try_from_command_string(String::from("echo hi")).unwrap();
    assert_eq!(cmd.command(), "echo");
    assert_eq!(cmd.args(), &vec![String::from("hi")]);
}

#[test]
fn resolve_root_prefers_trimmed_git_output() {
    let root = resolve_root(Some(String::from("/repo\n")), Some(String::from("/cwd"))).unwrap();
    assert_eq!(root, "/repo");
}

#[test]
fn resolve_root_falls_back_to_working_directory() {
    let root = resolve_root(None, Some(String::from("/cwd"))).unwrap();
    assert_eq!(root, "/cwd");
}

#[test]
fn resolve_root_treats_blank_vcs_answer_as_no_answer() {
    let root = resolve_root(Some(String::from("\n")), Some(String::from("/cwd"))).unwrap();
    assert_eq!(root, "/cwd");
    assert_eq!(
        resolve_root(Some(String::new()), None),
        Err(ConfigError::RootNotFound)
    );
}

#[test]
fn resolve_root_fails_without_any_source() {
    assert_eq!(resolve_root(None, None), Err(ConfigError::RootNotFound));
}

#[test]
fn new_fails_on_root_not_found() {
    let r = Config::new(None, None, FileSource::Absent, empty_args(), None);
    assert!(matches!(r, Err(ConfigError::RootNotFound)));
}

#[test]
fn new_fails_on_malformed_config_file() {
    let r = Config::new(
        None,
        Some(String::from("/repo")),
        FileSource::Malformed,
        empty_args(),
        None,
    );
    assert!(matches!(r, Err(ConfigError::ConfigParse)));
}

#[test]
fn canonicalise_applies_resolved_origins_and_keeps_unresolved() {
    let file_opt = FileOpt {
        exec_opt: Some(FileOptExec {
            command: Some(String::from("run")),
            args: None,
            origin: Some(String::from("rel")),
        }),
        exec_pre: Some(FileOptExecPre {
            origin: Some(String::from("pre-rel")),
            when: None,
            commands: None,
        }),
        ..empty_file()
    };
    let mut config = new_config(file_opt, empty_args());
    config.canonicalise(Some(String::from("/repo/rel")), None);
    assert_eq!(config.to_exec().origin(), "/repo/rel");
    assert_eq!(config.to_exec_pre().as_ref().unwrap().origin(), "pre-rel");
}
