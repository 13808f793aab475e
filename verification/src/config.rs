//! The effective configuration and its construction: merging the optional
//! file-sourced and CLI-sourced configurations field by field, with the CLI
//! winning wherever both supply a value, resolving the project root, and
//! applying canonicalized origin paths.

use crate::args_opt::{ArgsOpt, ArgsOptExec, ArgsOptExecPre, ArgsOptExtend, ArgsOptExtendableType,
    ArgsOptWhen};
use crate::file_opt::{ExtendableType, FileOpt, FileOptExec, FileOptExecPre, FileOptExecPreCommand,
    FileOptExclude, FileOptExtend, FileOptWhen};
use crate::gitignore::{gitignore_matches, gitignore_root};
use crate::strings::{is_whitespace_char, split_whitespace_tokens, split_ws, trim_owned, trim_spec};
use vstd::prelude::*;

verus! {

/// Why an effective configuration could not be built.
#[derive(Clone, Copy, Debug, PartialEq, Eq, Structural)]
pub enum ConfigError {
    /// Neither version control nor the working directory yielded a root.
    RootNotFound,
    /// The configuration file is present but does not parse.
    ConfigParse,
}

/// The configuration file as the caller found it: absent, parsed into its
/// sections, or present but malformed.
pub enum FileSource {
    Absent,
    Parsed(FileOpt),
    Malformed,
}

/// When the pre-exec commands run: before every launch, or only before the
/// very first one.
#[derive(Clone, Copy, PartialEq, Eq, Structural)]
pub enum When {
    Once,
    Always,
}

/// The main command: what to run, with which arguments, and where.
pub struct Exec {
    pub command: String,
    pub args: Vec<String>,
    pub origin: String,
}

/// Mathematical model of [`Exec`].
pub struct ExecView {
    pub command: Seq<char>,
    pub args: Seq<Seq<char>>,
    pub origin: Seq<char>,
}

impl View for Exec {
    type V = ExecView;

    open spec fn view(&self) -> ExecView {
        ExecView { command: self.command@, args: self.args.deep_view(), origin: self.origin@ }
    }
}

/// One pre-exec command.
pub struct ExecPreCommand {
    pub command: String,
    pub args: Vec<String>,
}

/// Mathematical model of [`ExecPreCommand`].
pub struct ExecPreCommandView {
    pub command: Seq<char>,
    pub args: Seq<Seq<char>>,
}

impl View for ExecPreCommand {
    type V = ExecPreCommandView;

    open spec fn view(&self) -> ExecPreCommandView {
        ExecPreCommandView { command: self.command@, args: self.args.deep_view() }
    }
}

impl DeepView for ExecPreCommand {
    type V = ExecPreCommandView;

    open spec fn deep_view(&self) -> ExecPreCommandView {
        self@
    }
}

/// The pre-exec setup: an ordered command list, a run policy and an origin.
pub struct ExecPre {
    pub origin: String,
    pub when_policy: When,
    pub commands: Vec<ExecPreCommand>,
}

/// Mathematical model of [`ExecPre`].
pub struct ExecPreView {
    pub origin: Seq<char>,
    pub when_policy: When,
    pub commands: Seq<ExecPreCommandView>,
}

impl View for ExecPre {
    type V = ExecPreView;

    open spec fn view(&self) -> ExecPreView {
        ExecPreView {
            origin: self.origin@,
            when_policy: self.when_policy,
            commands: self.commands.deep_view(),
        }
    }
}

/// The substring exclude list.
pub struct Exclude {
    pub exclude_files: Vec<String>,
}

impl View for Exclude {
    type V = Seq<Seq<char>>;

    open spec fn view(&self) -> Seq<Seq<char>> {
        self.exclude_files.deep_view()
    }
}

/// The extend matchers.
pub struct Extend {
    pub extendables: Vec<ExtendableType>,
}

/// Mathematical model of one extend matcher: the root it was built with
/// and the set of (path, is_dir) pairs it reports as ignored.
pub struct MatcherView {
    pub root: Option<Seq<char>>,
    pub ignored: Set<(Seq<char>, bool)>,
}

impl View for ExtendableType {
    type V = MatcherView;

    open spec fn view(&self) -> MatcherView {
        match self {
            ExtendableType::Git(wrapper) => MatcherView {
                root: gitignore_root(wrapper.0),
                ignored: gitignore_matches(wrapper.0),
            },
        }
    }
}

impl DeepView for ExtendableType {
    type V = MatcherView;

    open spec fn deep_view(&self) -> MatcherView {
        self@
    }
}

impl View for Extend {
    type V = Seq<MatcherView>;

    open spec fn view(&self) -> Seq<MatcherView> {
        self.extendables.deep_view()
    }
}

/// The effective configuration.
pub struct Config {
    pub exec_cfg: Exec,
    pub exec_pre: Option<ExecPre>,
    pub exclude: Exclude,
    pub extend: Extend,
    pub root: String,
}

/// Mathematical model of [`Config`].
pub struct ConfigView {
    pub exec_cfg: ExecView,
    pub exec_pre: Option<ExecPreView>,
    pub exclude: Seq<Seq<char>>,
    pub extend: Seq<MatcherView>,
    pub root: Seq<char>,
}

impl View for Config {
    type V = ConfigView;

    open spec fn view(&self) -> ConfigView {
        ConfigView {
            exec_cfg: self.exec_cfg@,
            exec_pre: match self.exec_pre {
                Some(p) => Some(p@),
                None => None,
            },
            exclude: self.exclude@,
            extend: self.extend@,
            root: self.root@,
        }
    }
}

/// A string the whitespace tokenizer can take apart: empty, or holding at
/// least one non-whitespace character.
pub open spec fn tokenizable(s: Seq<char>) -> bool {
    s.len() == 0 || exists|i: int| 0 <= i < s.len() && !is_whitespace_char(s[i])
}

/// A non-empty tokenizable string splits into at least one token.
pub proof fn lemma_tokenizable_splits(s: Seq<char>)
    requires
        tokenizable(s),
        s.len() > 0,
    ensures
        split_ws(s).len() > 0,
    decreases s.len(),
{
    if is_whitespace_char(s[0]) {
        let i = choose|i: int| 0 <= i < s.len() && !is_whitespace_char(s[i]);
        assert(s.drop_first()[i - 1] == s[i]);
        assert(tokenizable(s.drop_first()));
        lemma_tokenizable_splits(s.drop_first());
    }
}

/// What tokenizing a command string yields: the first whitespace-separated
/// token as the command, the remaining tokens as the arguments; nothing
/// for the empty string.
pub open spec fn parse_command_spec(s: Seq<char>) -> (Option<Seq<char>>, Seq<Seq<char>>) {
    if s.len() == 0 {
        (None, Seq::empty())
    } else {
        (Some(split_ws(s)[0]), split_ws(s).drop_first())
    }
}

/// Splits a command string on whitespace into the command (its first
/// token) and the arguments (the rest). An empty string yields no command
/// and no arguments.
pub fn parse_command_string(command: String) -> (r: (Option<String>, Vec<String>))
    requires
        tokenizable(command@),
    ensures
        r.0 is Some <==> command@.len() > 0,
        (match r.0 {
            Some(c) => Some(c@),
            None => None,
        }) == parse_command_spec(command@).0,
        r.1.deep_view() == parse_command_spec(command@).1,
{
    if command.as_str().is_empty() {
        let empty_args: Vec<String> = Vec::new();
        proof {
            assert(empty_args.deep_view() =~= Seq::<Seq<char>>::empty());
        }
        return (None, empty_args);
    }
    proof {
        lemma_tokenizable_splits(command@);
    }
    let mut tokens = split_whitespace_tokens(command.as_str());
    let first = tokens.remove(0);
    proof {
        assert(tokens.deep_view() =~= split_ws(command@).drop_first());
    }
    (Some(first), tokens)
}

/// The project root that the detection inputs yield: the trimmed output
/// of the version-control query when that is non-empty, else the working
/// directory; an answer that is empty after trimming counts as no answer.
pub open spec fn spec_resolve_root(git_top: Option<Seq<char>>, cwd: Option<Seq<char>>) -> Option<
    Seq<char>,
> {
    match git_top {
        Some(g) => if trim_spec(g).len() > 0 {
            Some(trim_spec(g))
        } else {
            cwd
        },
        None => cwd,
    }
}

/// Resolves the project root from the version-control query's output and
/// the working directory, preferring the former where its trimmed text is
/// non-empty; fails with [`ConfigError::RootNotFound`] exactly when
/// neither yields a root.
pub fn resolve_root(git_top: Option<String>, cwd: Option<String>) -> (r: Result<
    String,
    ConfigError,
>)
    ensures
        match r {
            Ok(root) => Some(root@) == spec_resolve_root(git_top.deep_view(), cwd.deep_view()),
            Err(e) => e == ConfigError::RootNotFound,
        },
        (r is Err) <==> (spec_resolve_root(git_top.deep_view(), cwd.deep_view()) is None),
{
    if let Some(g) = git_top {
        let trimmed = trim_owned(g.as_str());
        if !trimmed.as_str().is_empty() {
            return Ok(trimmed);
        }
    }
    match cwd {
        Some(c) => Ok(c),
        None => Err(ConfigError::RootNotFound),
    }
}

impl Exec {
    /// [`Exec`] with `f`'s set fields written over `e`.
    pub open spec fn spec_merge_file(e: ExecView, f: FileOptExec) -> ExecView {
        ExecView {
            command: match f.command {
                Some(c) => c@,
                None => e.command,
            },
            args: match f.args {
                Some(a) => a.deep_view(),
                None => e.args,
            },
            origin: match f.origin {
                Some(o) => o@,
                None => e.origin,
            },
        }
    }

    /// [`Exec`] with `a`'s set fields written over `e`: a set command
    /// string is tokenized, its first token becoming the command and the
    /// rest the arguments (an empty command string clears the arguments
    /// and keeps the command).
    pub open spec fn spec_merge_args(e: ExecView, a: ArgsOptExec) -> ExecView {
        let merged = match a.exec_str {
            Some(s) => if s@.len() == 0 {
                ExecView { args: Seq::empty(), ..e }
            } else {
                ExecView { command: split_ws(s@)[0], args: split_ws(s@).drop_first(), ..e }
            },
            None => e,
        };
        match a.origin {
            Some(o) => ExecView { origin: o@, ..merged },
            None => merged,
        }
    }

    /// Overlays the file-sourced `exec` section: each set field replaces
    /// the current value, each unset field leaves it.
    pub fn merge_file_exec(&mut self, file_exec: FileOptExec)
        ensures
            final(self)@ == Exec::spec_merge_file(old(self)@, file_exec),
    {
        let mut file_exec = file_exec;
        if let Some(command) = file_exec.take_command() {
            self.command = command;
        }
        if let Some(args) = file_exec.take_args() {
            self.args = args;
        }
        if let Some(origin) = file_exec.take_origin() {
            self.origin = origin;
        }
    }

    /// Overlays the CLI-sourced `exec` section: a set command string is
    /// tokenized by whitespace (quoting is not honoured), a set origin
    /// replaces the current one.
    pub fn merge_args_exec(&mut self, args_exec: ArgsOptExec)
        requires
            (match args_exec.exec_str {
                Some(s) => tokenizable(s@),
                None => true,
            }),
        ensures
            final(self)@ == Exec::spec_merge_args(old(self)@, args_exec),
    {
        let mut args_exec = args_exec;
        if let Some(command) = args_exec.take_exec() {
            let (command, args) = parse_command_string(command);
            if let Some(command) = command {
                self.command = command;
            }
            self.args = args;
        }
        if let Some(origin) = args_exec.take_origin() {
            self.origin = origin;
        }
    }

    /// The command to run.
    pub fn command(&self) -> (r: &str)
        ensures
            r@ == self.command@,
    {
        self.command.as_str()
    }

    /// The command's arguments, in order.
    pub fn args(&self) -> (r: &Vec<String>)
        ensures
            r == &self.args,
    {
        &self.args
    }

    /// The directory the command runs in.
    pub fn origin(&self) -> (r: &String)
        ensures
            r == &self.origin,
    {
        &self.origin
    }

    /// Replaces the origin with its canonicalized form where the caller
    /// could resolve one; keeps the stored path otherwise.
    pub fn canonicalise(&mut self, resolved: Option<String>)
        ensures
            final(self).origin == (match resolved {
                Some(o) => o,
                None => old(self).origin,
            }),
            final(self).command == old(self).command,
            final(self).args == old(self).args,
    {
        if let Some(origin) = resolved {
            self.origin = origin;
        }
    }
}

/// The model of one file-sourced pre-exec command: each unset field
/// defaults to empty.
pub open spec fn spec_file_pre_command(c: FileOptExecPreCommand) -> ExecPreCommandView {
    ExecPreCommandView {
        command: match c.command {
            Some(s) => s@,
            None => Seq::empty(),
        },
        args: match c.args {
            Some(a) => a.deep_view(),
            None => Seq::empty(),
        },
    }
}

/// The model of one CLI-sourced pre-exec command string: its first token
/// and the remaining tokens.
pub open spec fn spec_args_pre_command(s: Seq<char>) -> ExecPreCommandView {
    ExecPreCommandView { command: split_ws(s)[0], args: split_ws(s).drop_first() }
}

impl ExecPreCommand {
    /// Turns a CLI command string into a pre-exec command, rejecting the
    /// empty string.
    pub fn try_from_command_string(value: String) -> (r: Result<ExecPreCommand, String>)
        requires
            tokenizable(value@),
        ensures
            r is Ok <==> value@.len() > 0,
            (match r {
                Ok(c) => c@ == spec_args_pre_command(value@),
                Err(_) => true,
            }),
    {
        if value.as_str().is_empty() {
            return Err(String::new());
        }
        let (command, args) = parse_command_string(value);
        let mut cmd = ExecPreCommand { command: String::new(), args: Vec::new() };
        if let Some(command) = command {
            cmd.command = command;
        }
        cmd.args = args;
        Ok(cmd)
    }

    /// The command to run.
    pub fn command(&self) -> (r: &str)
        ensures
            r@ == self.command@,
    {
        self.command.as_str()
    }

    /// The command's arguments, in order.
    pub fn args(&self) -> (r: &Vec<String>)
        ensures
            r == &self.args,
    {
        &self.args
    }
}

/// The pre-exec section's empty form: no commands, run always, origin
/// unset.
pub open spec fn spec_empty_pre() -> ExecPreView {
    ExecPreView { origin: Seq::empty(), when_policy: When::Always, commands: Seq::empty() }
}

impl ExecPre {
    /// [`ExecPre`] with `f`'s set fields written over `p`: file commands
    /// take their set fields, unset ones default to empty.
    pub open spec fn spec_merge_file(p: ExecPreView, f: FileOptExecPre) -> ExecPreView {
        ExecPreView {
            commands: match f.commands {
                Some(cmds) => Seq::new(cmds@.len(), |i: int| spec_file_pre_command(cmds@[i])),
                None => p.commands,
            },
            when_policy: match f.when {
                Some(FileOptWhen::Once) => When::Once,
                Some(FileOptWhen::Always) => When::Always,
                None => p.when_policy,
            },
            origin: match f.origin {
                Some(o) => o@,
                None => p.origin,
            },
        }
    }

    /// Whether every CLI pre-exec command string is non-empty: only then
    /// does a set CLI command list replace the current commands.
    pub open spec fn spec_args_commands_ok(cmds: Seq<Seq<char>>) -> bool {
        forall|i: int| 0 <= i < cmds.len() ==> cmds[i].len() > 0
    }

    /// [`ExecPre`] with `a`'s set fields written over `p`: the command
    /// list is replaced only when every one of its strings converts.
    pub open spec fn spec_merge_args(p: ExecPreView, a: ArgsOptExecPre) -> ExecPreView {
        ExecPreView {
            commands: match a.exec_pre {
                Some(cmds) => if Self::spec_args_commands_ok(cmds.deep_view()) {
                    Seq::new(
                        cmds.deep_view().len(),
                        |i: int| spec_args_pre_command(cmds.deep_view()[i]),
                    )
                } else {
                    p.commands
                },
                None => p.commands,
            },
            when_policy: match a.when {
                Some(ArgsOptWhen::Once) => When::Once,
                Some(ArgsOptWhen::Always) => When::Always,
                None => p.when_policy,
            },
            origin: match a.origin_pre {
                Some(o) => o@,
                None => p.origin,
            },
        }
    }

    /// Overlays the file-sourced `exec_pre` section.
    pub fn merge_file_exec_pre(&mut self, file_exec_pre: FileOptExecPre)
        ensures
            final(self)@ == ExecPre::spec_merge_file(old(self)@, file_exec_pre),
    {
        let mut file_exec_pre = file_exec_pre;
        let ghost f = file_exec_pre;
        if let Some(commands) = file_exec_pre.take_commands() {
            let ghost all = commands@;
            let mut commands = commands;
            let mut built: Vec<ExecPreCommand> = Vec::new();
            let n = commands.len();
            let mut i: usize = 0;
            while i < n
                invariant
                    n == all.len(),
                    i <= n,
                    commands@ =~= all.subrange(i as int, n as int),
                    built.deep_view() =~= Seq::new(
                        i as nat,
                        |k: int| spec_file_pre_command(all[k]),
                    ),
                decreases n - i,
            {
                let ghost built_before = built.deep_view();
                let mut file_cmd = commands.remove(0);
                proof {
                    assert(file_cmd == all[i as int]);
                }
                let mut cmd = ExecPreCommand { command: String::new(), args: Vec::new() };
                if let Some(command) = file_cmd.take_command() {
                    cmd.command = command;
                }
                if let Some(args) = file_cmd.take_args() {
                    cmd.args = args;
                }
                proof {
                    assert(cmd@.args =~= spec_file_pre_command(all[i as int]).args);
                    assert(cmd@ == spec_file_pre_command(all[i as int]));
                }
                built.push(cmd);
                proof {
                    assert(built.deep_view() =~= built_before.push(cmd@));
                    assert(built.deep_view() =~= Seq::new(
                        (i + 1) as nat,
                        |k: int| spec_file_pre_command(all[k]),
                    ));
                    assert(commands@ =~= all.subrange(i + 1, n as int));
                }
                i = i + 1;
            }
            self.commands = built;
        }
        if let Some(when) = file_exec_pre.take_when() {
            self.when_policy = match when {
                FileOptWhen::Once => When::Once,
                FileOptWhen::Always => When::Always,
            };
        }
        if let Some(origin) = file_exec_pre.take_origin() {
            self.origin = origin;
        }
        proof {
            assert(final(self)@.commands =~= ExecPre::spec_merge_file(old(self)@, f).commands);
        }
    }

    /// Overlays the CLI-sourced `exec_pre` section: the command strings
    /// replace the current list only when all of them convert.
    pub fn merge_args_exec_pre(&mut self, args_exec_pre: ArgsOptExecPre)
        requires
            (match args_exec_pre.exec_pre {
                Some(cmds) => forall|i: int|
                    0 <= i < cmds.deep_view().len() ==> tokenizable(cmds.deep_view()[i]),
                None => true,
            }),
        ensures
            final(self)@ == ExecPre::spec_merge_args(old(self)@, args_exec_pre),
    {
        let mut args_exec_pre = args_exec_pre;
        let ghost a = args_exec_pre;
        if let Some(commands) = args_exec_pre.take_exec_pre() {
            let mut built: Vec<ExecPreCommand> = Vec::new();
            let mut all_ok = true;
            let n = commands.len();
            let mut i: usize = 0;
            while i < n
                invariant
                    n == commands@.len(),
                    i <= n,
                    forall|k: int|
                        0 <= k < commands.deep_view().len() ==> tokenizable(
                            commands.deep_view()[k],
                        ),
                    all_ok <==> (forall|k: int| 0 <= k < i ==> commands.deep_view()[k].len() > 0),
                    all_ok ==> built.deep_view() =~= Seq::new(
                        i as nat,
                        |k: int| spec_args_pre_command(commands.deep_view()[k]),
                    ),
                decreases n - i,
            {
                let ghost built_before = built.deep_view();
                let cmd_str = commands[i].clone();
                proof {
                    assert(cmd_str@ == commands.deep_view()[i as int]);
                }
                match ExecPreCommand::try_from_command_string(cmd_str) {
                    Ok(cmd) => {
                        built.push(cmd);
                        proof {
                            if all_ok {
                                assert(built.deep_view() =~= built_before.push(cmd@));
                                assert(built.deep_view() =~= Seq::new(
                                    (i + 1) as nat,
                                    |k: int| spec_args_pre_command(commands.deep_view()[k]),
                                ));
                            }
                        }
                    },
                    Err(_) => {
                        all_ok = false;
                    },
                }
                i = i + 1;
            }
            if all_ok {
                self.commands = built;
            }
        }
        if let Some(when) = args_exec_pre.take_when() {
            self.when_policy = match when {
                ArgsOptWhen::Once => When::Once,
                ArgsOptWhen::Always => When::Always,
            };
        }
        if let Some(origin) = args_exec_pre.take_origin_pre() {
            self.origin = origin;
        }
        proof {
            assert(final(self)@.commands =~= ExecPre::spec_merge_args(old(self)@, a).commands);
        }
    }

    /// When the pre-exec commands run.
    pub fn when(&self) -> (r: &When)
        ensures
            r == &self.when_policy,
    {
        &self.when_policy
    }

    /// The pre-exec commands, in the order they run.
    pub fn commands(&self) -> (r: &Vec<ExecPreCommand>)
        ensures
            r == &self.commands,
    {
        &self.commands
    }

    /// The directory the pre-exec commands run in.
    pub fn origin(&self) -> (r: &String)
        ensures
            r == &self.origin,
    {
        &self.origin
    }

    /// Replaces the origin with its canonicalized form where the caller
    /// could resolve one; keeps the stored path otherwise.
    pub fn canonicalise(&mut self, resolved: Option<String>)
        ensures
            final(self).origin == (match resolved {
                Some(o) => o,
                None => old(self).origin,
            }),
            final(self).when_policy == old(self).when_policy,
            final(self).commands == old(self).commands,
    {
        if let Some(origin) = resolved {
            self.origin = origin;
        }
    }
}

impl Exclude {
    /// Replaces the exclude list with the file-sourced one.
    pub fn merge_file_exclude(&mut self, file_exclude: FileOptExclude)
        ensures
            final(self)@ == file_exclude.files.deep_view(),
    {
        self.exclude_files = file_exclude.take_exclude_files();
    }

    /// Replaces the exclude list with the CLI-sourced one.
    pub fn merge_args_exclude(&mut self, args_exclude: Vec<String>)
        ensures
            final(self)@ == args_exclude.deep_view(),
    {
        self.exclude_files = args_exclude;
    }

    /// The configured path substrings, in order.
    pub fn to_exclude_files(&self) -> (r: &Vec<String>)
        ensures
            r == &self.exclude_files,
    {
        &self.exclude_files
    }

    /// Replaces the exclude list outright.
    pub fn set_exclude_files(&mut self, ignore_files: Vec<String>)
        ensures
            final(self).exclude_files == ignore_files,
    {
        self.exclude_files = ignore_files;
    }
}

impl Extend {
    /// Replaces the matchers with the file-sourced ones.
    pub fn merge_file_extend(&mut self, file_extend: FileOptExtend)
        ensures
            final(self).extendables == file_extend.extendables,
    {
        self.extendables = file_extend.take_extendables();
    }

    /// Replaces the matchers with ones built from the CLI entries.
    pub fn merge_args_extend(&mut self, built: Vec<ExtendableType>)
        ensures
            final(self).extendables == built,
    {
        self.extendables = built;
    }

    /// The matchers, in order.
    pub fn to_extendables(&self) -> (r: &Vec<ExtendableType>)
        ensures
            r == &self.extendables,
    {
        &self.extendables
    }
}

/// Pairs each CLI `extend` path with its declared kind, position by
/// position (surplus entries of the longer list are dropped); fails when
/// either half is missing.
pub fn extend_pairs(args_extend: ArgsOptExtend) -> (r: Result<
    Vec<(String, ArgsOptExtendableType)>,
    String,
>)
    ensures
        r is Ok <==> (args_extend.extend is Some && args_extend.extendable_type is Some),
        (match r {
            Ok(pairs) => {
                let paths = args_extend.extend->0;
                let kinds = args_extend.extendable_type->0;
                &&& pairs@.len() == vstd::math::min(paths@.len() as int, kinds@.len() as int)
                &&& forall|i: int|
                    0 <= i < pairs@.len() ==> pairs@[i].0 == paths@[i] && pairs@[i].1 == kinds@[i]
            },
            Err(_) => true,
        }),
{
    let mut args_extend = args_extend;
    let ghost a = args_extend;
    let paths = args_extend.take_extend();
    let kinds = args_extend.take_extendable_type();
    match (paths, kinds) {
        (Some(paths), Some(kinds)) => {
            let mut pairs: Vec<(String, ArgsOptExtendableType)> = Vec::new();
            let n = if paths.len() <= kinds.len() {
                paths.len()
            } else {
                kinds.len()
            };
            let mut paths = paths;
            let mut i: usize = 0;
            while i < n
                invariant
                    n <= paths@.len(),
                    n <= kinds@.len(),
                    i <= n,
                    pairs@.len() == i,
                    forall|k: int|
                        0 <= k < i ==> pairs@[k].0 == paths@[k] && pairs@[k].1 == kinds@[k],
                decreases n - i,
            {
                let path = paths[i].clone();
                proof {
                    assert(path@ == paths@[i as int]@);
                }
                let pair = (path, kinds[i]);
                pairs.push(pair);
                i = i + 1;
            }
            Ok(pairs)
        },
        _ => Err(String::new()),
    }
}

impl Config {
    /// Overlays both sources' `exec` sections: file first, then CLI, so a
    /// CLI field that is set always wins; with neither source the section
    /// resets to its empty form.
    pub fn merge_exec(&mut self, file_exec: Option<FileOptExec>, args_exec: Option<ArgsOptExec>)
        requires
            (match args_exec {
                Some(a) => match a.exec_str {
                    Some(s) => tokenizable(s@),
                    None => true,
                },
                None => true,
            }),
        ensures
            final(self)@ == (ConfigView {
                exec_cfg: Config::spec_merge_exec(old(self)@.exec_cfg, file_exec, args_exec),
                ..old(self)@
            }),
    {
        match (file_exec, args_exec) {
            (Some(file_exec), Some(args_exec)) => {
                self.exec_cfg.merge_file_exec(file_exec);
                self.exec_cfg.merge_args_exec(args_exec);
            },
            (None, Some(args_exec)) => self.exec_cfg.merge_args_exec(args_exec),
            (Some(file_exec), None) => self.exec_cfg.merge_file_exec(file_exec),
            (None, None) => self.exec_cfg =
                Exec { command: String::new(), args: Vec::new(), origin: String::new() },
        }
        proof {
            assert(final(self)@.exec_cfg.args =~= Config::spec_merge_exec(
                old(self)@.exec_cfg,
                file_exec,
                args_exec,
            ).args);
        }
    }

    /// The merged `exec` section (see [`Config::merge_exec`]).
    pub open spec fn spec_merge_exec(
        e: ExecView,
        file: Option<FileOptExec>,
        args: Option<ArgsOptExec>,
    ) -> ExecView {
        match (file, args) {
            (Some(f), Some(a)) => Exec::spec_merge_args(Exec::spec_merge_file(e, f), a),
            (None, Some(a)) => Exec::spec_merge_args(e, a),
            (Some(f), None) => Exec::spec_merge_file(e, f),
            (None, None) => ExecView {
                command: Seq::empty(),
                args: Seq::empty(),
                origin: Seq::empty(),
            },
        }
    }

    /// The merged `exec_pre` section (see [`Config::merge_exec_pre`]):
    /// built afresh from its empty form, absent with neither source.
    pub open spec fn spec_merge_exec_pre(
        file: Option<FileOptExecPre>,
        args: Option<ArgsOptExecPre>,
    ) -> Option<ExecPreView> {
        match (file, args) {
            (Some(f), Some(a)) => Some(
                ExecPre::spec_merge_args(ExecPre::spec_merge_file(spec_empty_pre(), f), a),
            ),
            (None, Some(a)) => Some(ExecPre::spec_merge_args(spec_empty_pre(), a)),
            (Some(f), None) => Some(ExecPre::spec_merge_file(spec_empty_pre(), f)),
            (None, None) => None,
        }
    }

    /// Overlays both sources' `exec_pre` sections onto a fresh empty
    /// section, file first, then CLI; with neither source the section
    /// becomes absent.
    pub fn merge_exec_pre(
        &mut self,
        file_exec_pre: Option<FileOptExecPre>,
        args_exec_pre: Option<ArgsOptExecPre>,
    )
        requires
            (match args_exec_pre {
                Some(a) => match a.exec_pre {
                    Some(cmds) => forall|i: int|
                        0 <= i < cmds.deep_view().len() ==> tokenizable(cmds.deep_view()[i]),
                    None => true,
                },
                None => true,
            }),
        ensures
            final(self)@ == (ConfigView {
                exec_pre: Config::spec_merge_exec_pre(file_exec_pre, args_exec_pre),
                ..old(self)@
            }),
    {
        let mut exec_pre = ExecPre {
            origin: String::new(),
            when_policy: When::Always,
            commands: Vec::new(),
        };
        proof {
            assert(exec_pre@.commands =~= spec_empty_pre().commands);
            assert(exec_pre@ == spec_empty_pre());
        }
        match (file_exec_pre, args_exec_pre) {
            (Some(file_exec_pre), Some(args_exec_pre)) => {
                exec_pre.merge_file_exec_pre(file_exec_pre);
                exec_pre.merge_args_exec_pre(args_exec_pre);
            },
            (None, Some(args_exec_pre)) => {
                exec_pre.merge_args_exec_pre(args_exec_pre);
            },
            (Some(file_exec_pre), None) => {
                exec_pre.merge_file_exec_pre(file_exec_pre);
            },
            (None, None) => {
                self.exec_pre = None;
                return ;
            },
        }
        self.exec_pre = Some(exec_pre);
    }

    /// The merged `exclude` section (see [`Config::merge_exclude`]): the
    /// CLI list when set, else the file list, else empty.
    pub open spec fn spec_merge_exclude(
        file: Option<FileOptExclude>,
        args: Option<Vec<String>>,
    ) -> Seq<Seq<char>> {
        match (file, args) {
            (_, Some(a)) => a.deep_view(),
            (Some(f), None) => f.files.deep_view(),
            (None, None) => Seq::empty(),
        }
    }

    /// Overlays both sources' `exclude` sections: a set CLI list replaces
    /// the file list entirely; with neither source the list is empty.
    pub fn merge_exclude(
        &mut self,
        file_exclude: Option<FileOptExclude>,
        args_exclude: Option<Vec<String>>,
    )
        ensures
            final(self)@ == (ConfigView {
                exclude: Config::spec_merge_exclude(file_exclude, args_exclude),
                ..old(self)@
            }),
    {
        match (file_exclude, args_exclude) {
            (Some(file_exclude), Some(args_exclude)) => {
                self.exclude.merge_file_exclude(file_exclude);
                self.exclude.merge_args_exclude(args_exclude);
            },
            (None, Some(args_exclude)) => self.exclude.merge_args_exclude(args_exclude),
            (Some(file_exclude), None) => self.exclude.merge_file_exclude(file_exclude),
            (None, None) => {
                self.exclude = Exclude { exclude_files: Vec::new() };
                proof {
                    assert(final(self)@.exclude =~= Seq::<Seq<char>>::empty());
                }
            },
        }
    }

    /// The merged `extend` section (see [`Config::merge_extend`]).
    pub open spec fn spec_merge_extend(
        cur: Seq<MatcherView>,
        file: Option<FileOptExtend>,
        args_present: bool,
        built: Option<Vec<ExtendableType>>,
    ) -> Seq<MatcherView> {
        match built {
            Some(b) => b.deep_view(),
            None => match file {
                Some(f) => f.extendables.deep_view(),
                None => if args_present {
                    cur
                } else {
                    Seq::empty()
                },
            },
        }
    }

    /// Overlays both sources' `extend` sections. The CLI side arrives as
    /// the matchers the caller built from its entries: `built` is set when
    /// building succeeded, `args_present` says whether the CLI supplied the
    /// section at all (a present but failed CLI section leaves the file's
    /// matchers in place); with neither source the list is empty.
    pub fn merge_extend(
        &mut self,
        file_extend: Option<FileOptExtend>,
        args_present: bool,
        built: Option<Vec<ExtendableType>>,
    )
        requires
            (built is Some) ==> args_present,
        ensures
            final(self)@ == (ConfigView {
                extend: Config::spec_merge_extend(old(self)@.extend, file_extend, args_present, built),
                ..old(self)@
            }),
    {
        match (file_extend, args_present) {
            (Some(file_extend), true) => {
                self.extend.merge_file_extend(file_extend);
                if let Some(built) = built {
                    self.extend.merge_args_extend(built);
                }
            },
            (None, true) => {
                if let Some(built) = built {
                    self.extend.merge_args_extend(built);
                }
            },
            (Some(file_extend), false) => self.extend.merge_file_extend(file_extend),
            (None, false) => {
                self.extend = Extend { extendables: Vec::new() };
                proof {
                    assert(final(self)@.extend =~= Seq::<MatcherView>::empty());
                }
            },
        }
    }

    /// Every CLI command string the merge would tokenize is tokenizable:
    /// what [`Config::merge`] requires of the CLI side.
    pub open spec fn args_opt_wf(args_opt: ArgsOpt) -> bool {
        &&& (match args_opt.exec_opt {
            Some(a) => match a.exec_str {
                Some(s) => tokenizable(s@),
                None => true,
            },
            None => true,
        })
        &&& (match args_opt.exec_pre {
            Some(a) => match a.exec_pre {
                Some(cmds) => forall|i: int|
                    0 <= i < cmds.deep_view().len() ==> tokenizable(cmds.deep_view()[i]),
                None => true,
            },
            None => true,
        })
    }

    /// The whole merged configuration (see [`Config::merge`]).
    pub open spec fn spec_merge(
        c: ConfigView,
        file_opt: FileOpt,
        args_opt: ArgsOpt,
        built: Option<Vec<ExtendableType>>,
    ) -> ConfigView {
        ConfigView {
            exec_cfg: Config::spec_merge_exec(c.exec_cfg, file_opt.exec_opt, args_opt.exec_opt),
            exec_pre: Config::spec_merge_exec_pre(file_opt.exec_pre, args_opt.exec_pre),
            exclude: Config::spec_merge_exclude(file_opt.exclude, args_opt.exclude),
            extend: Config::spec_merge_extend(
                c.extend,
                file_opt.extend,
                args_opt.extend is Some,
                built,
            ),
            root: c.root,
        }
    }

    /// Merges the file-sourced and CLI-sourced configurations into this
    /// one, section by section: file values apply first, CLI values
    /// overlay them field by field, and a section neither source supplies
    /// resets to its empty form. `built` carries the matchers the caller
    /// built from the CLI `extend` entries, when it supplied any and
    /// building succeeded.
    pub fn merge(
        self,
        file_opt: FileOpt,
        args_opt: ArgsOpt,
        built: Option<Vec<ExtendableType>>,
    ) -> (r: Config)
        requires
            Config::args_opt_wf(args_opt),
            (built is Some) ==> (args_opt.extend is Some),
        ensures
            r@ == Config::spec_merge(self@, file_opt, args_opt, built),
    {
        let mut this = self;
        let mut file_opt = file_opt;
        let mut args_opt = args_opt;
        this.merge_exec(file_opt.take_exec(), args_opt.take_exec());
        this.merge_exec_pre(file_opt.take_exec_pre(), args_opt.take_exec_pre());
        this.merge_exclude(file_opt.take_exclude(), args_opt.take_exclude());
        let args_extend = args_opt.take_extend();
        this.merge_extend(file_opt.take_extend(), args_extend.is_some(), built);
        this
    }

    /// Builds the effective configuration: resolves the project root from
    /// the detection inputs, then merges the two sources onto an empty
    /// configuration rooted there. Fails with
    /// [`ConfigError::RootNotFound`] when no root can be detected and with
    /// [`ConfigError::ConfigParse`] when the configuration file is present
    /// but malformed.
    pub fn new(
        git_top: Option<String>,
        cwd: Option<String>,
        file_source: FileSource,
        args_opt: ArgsOpt,
        built: Option<Vec<ExtendableType>>,
    ) -> (r: Result<Config, ConfigError>)
        requires
            Config::args_opt_wf(args_opt),
            (built is Some) ==> (args_opt.extend is Some),
        ensures
            (spec_resolve_root(git_top.deep_view(), cwd.deep_view()) is None) ==> (r matches Err(e)
                && e == ConfigError::RootNotFound),
            (spec_resolve_root(git_top.deep_view(), cwd.deep_view()) is Some) && (
            file_source matches FileSource::Malformed) ==> (r matches Err(e) && e
                == ConfigError::ConfigParse),
            (spec_resolve_root(git_top.deep_view(), cwd.deep_view()) is Some) && !(
            file_source matches FileSource::Malformed) ==> (r matches Ok(c) && Some(c@.root)
                == spec_resolve_root(
                git_top.deep_view(),
                cwd.deep_view(),
            ) && c@ == Config::spec_merge(
                ConfigView {
                    exec_cfg: ExecView {
                        command: Seq::empty(),
                        args: Seq::empty(),
                        origin: Seq::empty(),
                    },
                    exec_pre: None,
                    exclude: Seq::empty(),
                    extend: Seq::empty(),
                    root: c@.root,
                },
                (match file_source {
                    FileSource::Parsed(f) => f,
                    _ => FileOpt { exec_opt: None, exec_pre: None, exclude: None, extend: None },
                }),
                args_opt,
                built,
            )),
    {
        let root = match resolve_root(git_top, cwd) {
            Ok(root) => root,
            Err(e) => {
                return Err(e);
            },
        };
        let file_opt = match file_source {
            FileSource::Parsed(f) => f,
            FileSource::Absent => FileOpt {
                exec_opt: None,
                exec_pre: None,
                exclude: None,
                extend: None,
            },
            FileSource::Malformed => {
                return Err(ConfigError::ConfigParse);
            },
        };
        let config = Config {
            exec_cfg: Exec { command: String::new(), args: Vec::new(), origin: String::new() },
            exec_pre: None,
            exclude: Exclude { exclude_files: Vec::new() },
            extend: Extend { extendables: Vec::new() },
            root,
        };
        proof {
            assert(config@.exec_cfg.args =~= Seq::<Seq<char>>::empty());
            assert(config@.exclude =~= Seq::<Seq<char>>::empty());
            assert(config@.extend =~= Seq::<MatcherView>::empty());
        }
        Ok(config.merge(file_opt, args_opt, built))
    }

    /// The extend matchers.
    pub fn to_extend(&self) -> (r: &Extend)
        ensures
            r == &self.extend,
    {
        &self.extend
    }

    /// The substring exclude list.
    pub fn to_exclude(&self) -> (r: &Exclude)
        ensures
            r == &self.exclude,
    {
        &self.exclude
    }

    /// The project root.
    pub fn root(&self) -> (r: &String)
        ensures
            r == &self.root,
    {
        &self.root
    }

    /// The main command section.
    pub fn to_exec(&self) -> (r: &Exec)
        ensures
            r == &self.exec_cfg,
    {
        &self.exec_cfg
    }

    /// The pre-exec section, when configured.
    pub fn to_exec_pre(&self) -> (r: &Option<ExecPre>)
        ensures
            r == &self.exec_pre,
    {
        &self.exec_pre
    }

    /// Applies canonicalized origin paths that the caller resolved against
    /// the root: a resolved form replaces the stored path, an unresolved
    /// one (the path does not exist) leaves it, and everything else is
    /// untouched.
    pub fn canonicalise(&mut self, exec_origin: Option<String>, exec_pre_origin: Option<String>)
        ensures
            final(self).exec_cfg.origin == (match exec_origin {
                Some(o) => o,
                None => old(self).exec_cfg.origin,
            }),
            final(self).exec_cfg.command == old(self).exec_cfg.command,
            final(self).exec_cfg.args == old(self).exec_cfg.args,
            (match (old(self).exec_pre, final(self).exec_pre) {
                (Some(p0), Some(p1)) => p1.origin == (match exec_pre_origin {
                    Some(o) => o,
                    None => p0.origin,
                }) && p1.when_policy == p0.when_policy && p1.commands == p0.commands,
                (None, None) => true,
                _ => false,
            }),
            final(self).exclude == old(self).exclude,
            final(self).extend == old(self).extend,
            final(self).root == old(self).root,
    {
        if let Some(exec_pre) = self.exec_pre.as_mut() {
            exec_pre.canonicalise(exec_pre_origin);
        }
        self.exec_cfg.canonicalise(exec_origin);
    }
}

/// The configured exclude substrings of `config`, as an owned list.
pub fn ignore_files(config: Config) -> (r: Vec<String>)
    ensures
        r.deep_view() == config@.exclude,
{
    config.exclude.exclude_files
}

/// Merge precedence for the `exec` section: a field set on both sources
/// takes the CLI value, one set on the file only takes the file value,
/// and one set on neither keeps its prior value; with neither section
/// supplied the section resets to its empty form. A set CLI command
/// string makes the command its first token and the arguments the rest.
pub proof fn lemma_merge_precedence_exec(e: ExecView, f: FileOptExec, a: ArgsOptExec)
    ensures
        (a.origin is Some) ==> Config::spec_merge_exec(e, Some(f), Some(a)).origin
            == a.origin->0@,
        (a.origin is None && f.origin is Some) ==> Config::spec_merge_exec(e, Some(f), Some(a)).origin
            == f.origin->0@,
        (a.origin is None && f.origin is None) ==> Config::spec_merge_exec(e, Some(f), Some(a)).origin
            == e.origin,
        (a.exec_str is Some && a.exec_str->0@.len() > 0) ==> Config::spec_merge_exec(
            e,
            Some(f),
            Some(a),
        ).command == split_ws(a.exec_str->0@)[0] && Config::spec_merge_exec(
            e,
            Some(f),
            Some(a),
        ).args == split_ws(a.exec_str->0@).drop_first(),
        (a.exec_str is None && f.command is Some) ==> Config::spec_merge_exec(
            e,
            Some(f),
            Some(a),
        ).command == f.command->0@,
        (a.exec_str is None && f.args is Some) ==> Config::spec_merge_exec(e, Some(f), Some(a)).args
            == f.args->0.deep_view(),
        (a.exec_str is None && f.command is None) ==> Config::spec_merge_exec(
            e,
            Some(f),
            Some(a),
        ).command == e.command,
        (a.exec_str is None && f.args is None) ==> Config::spec_merge_exec(e, Some(f), Some(a)).args
            == e.args,
        (a.exec_str is Some && a.exec_str->0@.len() == 0 && f.command is Some)
            ==> Config::spec_merge_exec(e, Some(f), Some(a)).command == f.command->0@,
        (a.exec_str is Some && a.exec_str->0@.len() == 0) ==> Config::spec_merge_exec(
            e,
            Some(f),
            Some(a),
        ).args == Seq::<Seq<char>>::empty(),
        Config::spec_merge_exec(e, None, None) == (ExecView {
            command: Seq::empty(),
            args: Seq::empty(),
            origin: Seq::empty(),
        }),
{
}

/// Merge precedence for the `exec_pre` policy and origin: the CLI value
/// where set, else the file value, else the defaults (run always, origin
/// empty); with neither section supplied the section is absent.
pub proof fn lemma_merge_precedence_exec_pre(f: FileOptExecPre, a: ArgsOptExecPre)
    ensures
        (a.when matches Some(ArgsOptWhen::Once)) ==> Config::spec_merge_exec_pre(
            Some(f),
            Some(a),
        )->0.when_policy == When::Once,
        (a.when matches Some(ArgsOptWhen::Always)) ==> Config::spec_merge_exec_pre(
            Some(f),
            Some(a),
        )->0.when_policy == When::Always,
        (a.when is None && f.when matches Some(FileOptWhen::Once)) ==> Config::spec_merge_exec_pre(
            Some(f),
            Some(a),
        )->0.when_policy == When::Once,
        (a.when is None && f.when is None) ==> Config::spec_merge_exec_pre(
            Some(f),
            Some(a),
        )->0.when_policy == When::Always,
        (a.origin_pre is Some) ==> Config::spec_merge_exec_pre(Some(f), Some(a))->0.origin
            == a.origin_pre->0@,
        (a.origin_pre is None && f.origin is Some) ==> Config::spec_merge_exec_pre(
            Some(f),
            Some(a),
        )->0.origin == f.origin->0@,
        (a.origin_pre is None && f.origin is None) ==> Config::spec_merge_exec_pre(
            Some(f),
            Some(a),
        )->0.origin == Seq::<char>::empty(),
        (a.when is None && f.when matches Some(FileOptWhen::Always)) ==> Config::spec_merge_exec_pre(
            Some(f),
            Some(a),
        )->0.when_policy == When::Always,
        (a.exec_pre is Some && ExecPre::spec_args_commands_ok(a.exec_pre->0.deep_view()))
            ==> Config::spec_merge_exec_pre(Some(f), Some(a))->0.commands == Seq::new(
            a.exec_pre->0.deep_view().len(),
            |i: int| spec_args_pre_command(a.exec_pre->0.deep_view()[i]),
        ),
        (a.exec_pre is Some && !ExecPre::spec_args_commands_ok(a.exec_pre->0.deep_view()))
            ==> Config::spec_merge_exec_pre(Some(f), Some(a))->0.commands
            == ExecPre::spec_merge_file(spec_empty_pre(), f).commands,
        (a.exec_pre is None && f.commands is Some) ==> Config::spec_merge_exec_pre(
            Some(f),
            Some(a),
        )->0.commands == Seq::new(
            f.commands->0@.len(),
            |i: int| spec_file_pre_command(f.commands->0@[i]),
        ),
        (a.exec_pre is None && f.commands is None) ==> Config::spec_merge_exec_pre(
            Some(f),
            Some(a),
        )->0.commands == Seq::<ExecPreCommandView>::empty(),
        (Config::spec_merge_exec_pre(None, None) is None),
{
}

/// Merge precedence for the `exclude` section: the CLI list when set,
/// else the file list, else empty.
pub proof fn lemma_merge_precedence_exclude(f: Option<FileOptExclude>, a: Option<Vec<String>>)
    ensures
        (a is Some) ==> Config::spec_merge_exclude(f, a) == a->0.deep_view(),
        (a is None && f is Some) ==> Config::spec_merge_exclude(f, a) == f->0.files.deep_view(),
        (a is None && f is None) ==> Config::spec_merge_exclude(f, a)
            == Seq::<Seq<char>>::empty(),
{
}

} // verus!
