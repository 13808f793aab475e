//! The watch-loop core: classifying filesystem events against the ignore
//! rules, debouncing bursts, and the process-supervision state machine.
//! The caller performs the returned actions in order (spawning, killing
//! and waiting on real processes) and reports spawn outcomes back.

use crate::config::{Config, ConfigView, ExecPre, ExecPreView, MatcherView, When};
use crate::file_opt::Extendable;
use crate::gitignore::path_under_root;
use crate::strings::{contains_seq, contains_substring, file_name_part, file_name_spec, str_eq};
use vstd::prelude::*;

verus! {

/// The quiescence window after a reacted-to event, in milliseconds:
/// events arriving within it are drained without reaction.
pub const DEBOUNCE_WINDOW_MS: u64 = 500;

/// The kind of a filesystem event, as far as classification cares: what
/// happened, and for creations and removals whether it concerns a folder.
#[derive(Clone, Copy, PartialEq, Eq, Structural)]
pub enum EventKind {
    Create { folder: bool },
    Remove { folder: bool },
    ModifyData,
    ModifyName,
    ModifyMetadata,
    Access,
    Other,
}

/// A filesystem event: a kind and the affected paths.
pub struct Event {
    pub kind: EventKind,
    pub paths: Vec<String>,
}

/// Mathematical model of [`Event`].
pub struct EventView {
    pub kind: EventKind,
    pub paths: Seq<Seq<char>>,
}

impl View for Event {
    type V = EventView;

    open spec fn view(&self) -> EventView {
        EventView { kind: self.kind, paths: self.paths.deep_view() }
    }
}

/// The `is_dir` hint a kind supplies to the filters: folder sub-variants
/// decide it for creations and removals, data and name modifications
/// count as files, and every other kind gets no hint — such events are
/// ignored without consulting the filters.
pub open spec fn is_dir_hint(kind: EventKind) -> Option<bool> {
    match kind {
        EventKind::Create { folder } => Some(folder),
        EventKind::Remove { folder } => Some(folder),
        EventKind::ModifyData => Some(false),
        EventKind::ModifyName => Some(false),
        EventKind::ModifyMetadata => None,
        EventKind::Access => None,
        EventKind::Other => None,
    }
}

/// A path is excluded when its text contains any configured substring.
pub open spec fn path_excluded(excludes: Seq<Seq<char>>, path: Seq<char>) -> bool {
    exists|i: int| 0 <= i < excludes.len() && contains_seq(path, excludes[i])
}

/// What one extend matcher matches (see
/// [`crate::file_opt::Extendable::spec_matches`]).
pub open spec fn matcher_matches(m: MatcherView, path: Seq<char>, is_dir: bool) -> bool {
    path_under_root(m.root, path) && m.ignored.contains((path, is_dir))
}

/// A path is matched when any extend matcher reports it.
pub open spec fn path_matched(extend: Seq<MatcherView>, path: Seq<char>, is_dir: bool) -> bool {
    exists|i: int| 0 <= i < extend.len() && matcher_matches(extend[i], path, is_dir)
}

/// A path is ignored when the substring filter or an extend matcher
/// reports it: the two filters combine by logical or.
pub open spec fn path_ignored(config: ConfigView, path: Seq<char>, is_dir: bool) -> bool {
    path_excluded(config.exclude, path) || path_matched(config.extend, path, is_dir)
}

/// Every affected path is ignored.
pub open spec fn all_paths_ignored(config: ConfigView, paths: Seq<Seq<char>>, is_dir: bool) -> bool {
    forall|i: int| 0 <= i < paths.len() ==> path_ignored(config, paths[i], is_dir)
}

/// An event is ignored exactly when its kind yields no `is_dir` hint, or
/// every one of its paths is ignored under that hint.
pub open spec fn event_ignored(config: ConfigView, event: EventView) -> bool {
    match is_dir_hint(event.kind) {
        Some(d) => all_paths_ignored(config, event.paths, d),
        None => true,
    }
}

/// Whether every path of `event` is ignored under the `is_dir` hint: the
/// substring exclude list or any extend matcher reporting a path makes it
/// ignored, and one path that neither reports decides the whole event.
pub fn should_ignore_event(config: &Config, event: &Event, is_dir: bool) -> (r: bool)
    ensures
        r == all_paths_ignored(config@, event@.paths, is_dir),
{
    let paths = &event.paths;
    let paths_to_ignore = config.to_exclude().to_exclude_files();
    let extendables = config.to_extend().to_extendables();
    let n = paths.len();
    let mut i: usize = 0;
    while i < n
        invariant
            n == paths@.len(),
            i <= n,
            event@.paths == paths.deep_view(),
            forall|k: int| 0 <= k < i ==> path_ignored(config@, paths.deep_view()[k], is_dir),
            paths_to_ignore.deep_view() == config@.exclude,
            extendables.deep_view() == config@.extend,
        decreases n - i,
    {
        let path = &paths[i];
        let mut this_ignored = false;
        let m = paths_to_ignore.len();
        let mut j: usize = 0;
        while j < m
            invariant_except_break
                this_ignored == false,
            invariant
                m == paths_to_ignore@.len(),
                j <= m,
                paths_to_ignore.deep_view() == config@.exclude,
                forall|k: int| 0 <= k < j ==> !contains_seq(path@, config@.exclude[k]),
            ensures
                this_ignored ==> path_excluded(config@.exclude, path@),
                !this_ignored ==> !path_excluded(config@.exclude, path@),
            decreases m - j,
        {
            if contains_substring(path.as_str(), paths_to_ignore[j].as_str()) {
                this_ignored = true;
                proof {
                    assert(contains_seq(path@, config@.exclude[j as int]));
                }
                break ;
            }
            j = j + 1;
        }
        if !this_ignored {
            let e = extendables.len();
            let mut k: usize = 0;
            while k < e
                invariant_except_break
                    this_ignored == false,
                invariant
                    e == extendables@.len(),
                    k <= e,
                    extendables.deep_view() == config@.extend,
                    forall|t: int| 0 <= t < k ==> !matcher_matches(config@.extend[t], path@, is_dir),
                ensures
                    this_ignored ==> path_matched(config@.extend, path@, is_dir),
                    !this_ignored ==> !path_matched(config@.extend, path@, is_dir),
                decreases e - k,
            {
                if extendables[k].matcher(path.as_str(), is_dir) {
                    this_ignored = true;
                    proof {
                        assert(matcher_matches(config@.extend[k as int], path@, is_dir));
                    }
                    break ;
                }
                k = k + 1;
            }
            if !this_ignored {
                proof {
                    assert(!path_ignored(config@, paths.deep_view()[i as int], is_dir));
                    assert(!all_paths_ignored(config@, event@.paths, is_dir)) by {
                        assert(event@.paths[i as int] == paths.deep_view()[i as int]);
                    }
                }
                return false;
            }
        }
        proof {
            assert(path_ignored(config@, paths.deep_view()[i as int], is_dir));
        }
        i = i + 1;
    }
    true
}

/// An event targets the configuration file when any of its paths has the
/// file name `watchdog.toml`.
pub open spec fn spec_reload(event: EventView) -> bool {
    exists|i: int| 0 <= i < event.paths.len() && file_name_spec(event.paths[i]) == "watchdog.toml"@
}

/// Whether the event targets the configuration file itself, so that
/// reacting to it should rebuild the configuration.
pub fn should_reload_config(event: &Event) -> (r: bool)
    ensures
        r == spec_reload(event@),
{
    let n = event.paths.len();
    let mut i: usize = 0;
    while i < n
        invariant
            n == event.paths@.len(),
            i <= n,
            forall|k: int|
                0 <= k < i ==> file_name_spec(event@.paths[k]) != "watchdog.toml"@,
        decreases n - i,
    {
        let name = file_name_part(event.paths[i].as_str());
        if str_eq(name.as_str(), "watchdog.toml") {
            proof {
                assert(file_name_spec(event@.paths[i as int]) == "watchdog.toml"@);
            }
            return true;
        }
        i = i + 1;
    }
    false
}

/// One step the caller performs on the supervisor's behalf, in order.
pub enum Action {
    /// Clear the terminal display.
    ClearScreen,
    /// Run this pre-exec command in `origin` and wait for it to finish; a
    /// failure is logged and does not stop the sequence.
    RunPre { command: String, args: Vec<String>, origin: String },
    /// Spawn the main command in `origin` as the new child; a spawn
    /// failure leaves the child slot empty.
    Spawn { command: String, args: Vec<String>, origin: String },
    /// Send the current child its termination signal.
    KillChild,
    /// Block until the current child has fully exited.
    WaitChild,
}

/// Mathematical model of [`Action`].
pub enum ActionView {
    ClearScreen,
    RunPre { command: Seq<char>, args: Seq<Seq<char>>, origin: Seq<char> },
    Spawn { command: Seq<char>, args: Seq<Seq<char>>, origin: Seq<char> },
    KillChild,
    WaitChild,
}

impl View for Action {
    type V = ActionView;

    open spec fn view(&self) -> ActionView {
        match self {
            Action::ClearScreen => ActionView::ClearScreen,
            Action::RunPre { command, args, origin } => ActionView::RunPre {
                command: command@,
                args: args.deep_view(),
                origin: origin@,
            },
            Action::Spawn { command, args, origin } => ActionView::Spawn {
                command: command@,
                args: args.deep_view(),
                origin: origin@,
            },
            Action::KillChild => ActionView::KillChild,
            Action::WaitChild => ActionView::WaitChild,
        }
    }
}

impl DeepView for Action {
    type V = ActionView;

    open spec fn deep_view(&self) -> ActionView {
        self@
    }
}

/// The supervisor's answer to one delivered event.
pub enum Reaction {
    /// The event arrived inside the debounce window: drained silently.
    Discarded,
    /// The classifier ignored the event: no reaction.
    Ignored,
    /// React: perform the prologue actions (terminating the current
    /// child first when one runs), rebuild the configuration when
    /// `reload` says so, then launch via [`Supervisor::exec_plan`].
    Restart { prologue: Vec<Action>, reload: bool },
}

/// The supervision state: whether a child currently occupies the single
/// child slot, whether a first launch has been planned, and when the last
/// reacted-to event happened.
pub struct Supervisor {
    pub child_running: bool,
    pub started: bool,
    pub last_reaction: Option<u64>,
}

/// `now` falls inside the debounce window opened by the last reaction.
pub open spec fn spec_in_window(last_reaction: Option<u64>, now: u64) -> bool {
    match last_reaction {
        Some(t) => now < t + DEBOUNCE_WINDOW_MS,
        None => false,
    }
}

/// The prologue of a restart: terminate and fully wait on the current
/// child when one runs, else nothing.
pub open spec fn spec_prologue(child_running: bool) -> Seq<ActionView> {
    if child_running {
        seq![ActionView::KillChild, ActionView::WaitChild]
    } else {
        Seq::empty()
    }
}

/// Whether a launch runs the pre-exec sequence: always under
/// `When::Always`, only before the first launch under `When::Once`, and
/// never without a configured pre-exec section.
pub open spec fn spec_run_pre(exec_pre: Option<ExecPreView>, started: bool) -> bool {
    match exec_pre {
        Some(p) => match p.when_policy {
            When::Always => true,
            When::Once => !started,
        },
        None => false,
    }
}

/// The pre-exec actions of one launch: the configured commands in
/// declared order, each in the pre-exec origin, when the policy says to
/// run them.
pub open spec fn spec_pre_actions(config: ConfigView, started: bool) -> Seq<ActionView> {
    if spec_run_pre(config.exec_pre, started) {
        let p = config.exec_pre->0;
        Seq::new(
            p.commands.len(),
            |i: int| ActionView::RunPre {
                command: p.commands[i].command,
                args: p.commands[i].args,
                origin: p.origin,
            },
        )
    } else {
        Seq::empty()
    }
}

/// The actions of one launch: clear the display, run the pre-exec
/// sequence when the policy says to, then spawn the main command in its
/// origin.
pub open spec fn spec_exec_plan(config: ConfigView, started: bool) -> Seq<ActionView> {
    seq![ActionView::ClearScreen] + spec_pre_actions(config, started) + seq![
        ActionView::Spawn {
            command: config.exec_cfg.command,
            args: config.exec_cfg.args,
            origin: config.exec_cfg.origin,
        },
    ]
}

/// Copies a list of argument strings.
fn clone_string_vec(v: &Vec<String>) -> (r: Vec<String>)
    ensures
        r.deep_view() == v.deep_view(),
{
    let mut r: Vec<String> = Vec::new();
    let n = v.len();
    let mut i: usize = 0;
    while i < n
        invariant
            n == v@.len(),
            i <= n,
            r.deep_view() =~= v.deep_view().subrange(0, i as int),
        decreases n - i,
    {
        let ghost r_before = r.deep_view();
        let c = v[i].clone();
        proof {
            assert(c@ == v.deep_view()[i as int]);
        }
        r.push(c);
        proof {
            assert(r.deep_view() =~= r_before.push(v.deep_view()[i as int]));
            assert(r.deep_view() =~= v.deep_view().subrange(0, i + 1));
        }
        i = i + 1;
    }
    proof {
        assert(r.deep_view() =~= v.deep_view());
    }
    r
}

impl Supervisor {
    /// A fresh supervisor: empty child slot, nothing launched yet, no
    /// reaction on record.
    pub fn new() -> (r: Supervisor)
        ensures
            r.child_running == false,
            r.started == false,
            r.last_reaction is None,
    {
        Supervisor { child_running: false, started: false, last_reaction: None }
    }

    /// Whether a child currently occupies the child slot.
    pub fn child_running(&self) -> (r: bool)
        ensures
            r == self.child_running,
    {
        self.child_running
    }

    /// Answers one delivered event at time `now_ms`: drains it inside the
    /// debounce window, ignores it when the classifier says so, and
    /// otherwise opens a restart — handing back the kill/wait prologue
    /// for the current child and whether the configuration file itself
    /// was hit. A restart empties the child slot (the caller performs the
    /// prologue before anything else) and opens a new debounce window.
    pub fn event_handler(&mut self, config: &Config, event: &Event, now_ms: u64) -> (r: Reaction)
        ensures
            spec_in_window(old(self).last_reaction, now_ms) ==> (r is Discarded && *final(self)
                == *old(self)),
            !spec_in_window(old(self).last_reaction, now_ms) && event_ignored(config@, event@)
                ==> (r is Ignored && *final(self) == *old(self)),
            !spec_in_window(old(self).last_reaction, now_ms) && !event_ignored(config@, event@)
                ==> (r matches Reaction::Restart { prologue, reload } && prologue.deep_view()
                == spec_prologue(old(self).child_running) && reload == spec_reload(event@)
                && *final(self) == (Supervisor {
                child_running: false,
                started: old(self).started,
                last_reaction: Some(now_ms),
            })),
            *final(self) == spec_step(*old(self), config@, event@, now_ms),
            (r is Restart) <==> spec_reacts(*old(self), config@, event@, now_ms),
    {
        if let Some(t) = self.last_reaction {
            if now_ms < t || now_ms - t < DEBOUNCE_WINDOW_MS {
                return Reaction::Discarded;
            }
        }
        let ignored = match &event.kind {
            EventKind::Create { folder } => should_ignore_event(config, event, *folder),
            EventKind::Remove { folder } => should_ignore_event(config, event, *folder),
            EventKind::ModifyData => should_ignore_event(config, event, false),
            EventKind::ModifyName => should_ignore_event(config, event, false),
            EventKind::ModifyMetadata => true,
            EventKind::Access => true,
            EventKind::Other => true,
        };
        if ignored {
            return Reaction::Ignored;
        }
        let mut prologue: Vec<Action> = Vec::new();
        if self.child_running {
            prologue.push(Action::KillChild);
            prologue.push(Action::WaitChild);
        }
        proof {
            assert(prologue.deep_view() =~= spec_prologue(old(self).child_running));
        }
        let reload = should_reload_config(event);
        self.child_running = false;
        self.last_reaction = Some(now_ms);
        Reaction::Restart { prologue, reload }
    }

    /// Plans one launch: clear the display, the pre-exec sequence when
    /// the policy says to run it, then the spawn of the main command.
    /// Launching requires the child slot to be empty — the mutual
    /// exclusion the supervisor maintains — and a non-empty command, the
    /// configuration's invariant for any attempted launch. The slot stays
    /// empty until the
    /// caller reports the spawn's outcome via
    /// [`Supervisor::confirm_spawn`], and the launch marks the first
    /// start as done.
    pub fn exec_plan(&mut self, config: &Config) -> (r: Vec<Action>)
        requires
            !old(self).child_running,
            config@.exec_cfg.command.len() > 0,
        ensures
            r.deep_view() == spec_exec_plan(config@, old(self).started),
            *final(self) == (Supervisor {
                child_running: false,
                started: true,
                last_reaction: old(self).last_reaction,
            }),
    {
        let mut actions: Vec<Action> = Vec::new();
        actions.push(Action::ClearScreen);
        if let Some(exec_pre) = self.run_pre_now(config) {
            let commands = exec_pre.commands();
            let n = commands.len();
            let mut i: usize = 0;
            while i < n
                invariant
                    n == commands@.len(),
                    i <= n,
                    exec_pre@ == config@.exec_pre->0,
                    commands.deep_view() == config@.exec_pre->0.commands,
                    config@.exec_pre is Some,
                    spec_run_pre(config@.exec_pre, old(self).started),
                    actions.deep_view() =~= seq![ActionView::ClearScreen] + spec_pre_actions(
                        config@,
                        old(self).started,
                    ).subrange(0, i as int),
                decreases n - i,
            {
                let cmd = &commands[i];
                let action = Action::RunPre {
                    command: cmd.command.clone(),
                    args: clone_string_vec(&cmd.args),
                    origin: exec_pre.origin().clone(),
                };
                proof {
                    assert(action@ == spec_pre_actions(config@, old(self).started)[i as int]);
                }
                let ghost acts_before = actions.deep_view();
                actions.push(action);
                proof {
                    let pre = spec_pre_actions(config@, old(self).started);
                    assert(actions.deep_view() =~= acts_before.push(pre[i as int]));
                    assert(pre.subrange(0, i + 1) =~= pre.subrange(0, i as int).push(
                        pre[i as int],
                    ));
                    assert(actions.deep_view() =~= seq![ActionView::ClearScreen] + pre.subrange(
                        0,
                        i + 1,
                    ));
                }
                i = i + 1;
            }
        }
        let exec_cfg = config.to_exec();
        let spawn = Action::Spawn {
            command: exec_cfg.command.clone(),
            args: clone_string_vec(&exec_cfg.args),
            origin: exec_cfg.origin.clone(),
        };
        actions.push(spawn);
        self.started = true;
        proof {
            let pre = spec_pre_actions(config@, old(self).started);
            assert(pre.subrange(0, pre.len() as int) =~= pre);
            assert(actions.deep_view() =~= spec_exec_plan(config@, old(self).started));
        }
        actions
    }

    /// The pre-exec section when this launch should run it: under
    /// `When::Always` every time, under `When::Once` only before the
    /// first launch.
    fn run_pre_now<'a>(&self, config: &'a Config) -> (r: Option<&'a ExecPre>)
        ensures
            (r is Some) <==> spec_run_pre(config@.exec_pre, self.started),
            match r {
                Some(p) => Some(p@) == config@.exec_pre,
                None => true,
            },
    {
        match config.to_exec_pre() {
            Some(exec_pre) => {
                let run = match exec_pre.when() {
                    When::Once => !self.started,
                    When::Always => true,
                };
                if run {
                    Some(exec_pre)
                } else {
                    None
                }
            },
            None => None,
        }
    }

    /// Records the spawn's outcome: a successful spawn fills the child
    /// slot, a failed one leaves it empty.
    pub fn confirm_spawn(&mut self, ok: bool)
        ensures
            *final(self) == (Supervisor { child_running: ok, ..*old(self) }),
    {
        self.child_running = ok;
    }
}

/// Whether a child process is live after the first `i` actions of `acts`
/// have been performed, starting from `init`: waiting on the child frees
/// the slot, a spawn fills it, nothing else touches it.
pub open spec fn live_after(init: bool, acts: Seq<ActionView>, i: int) -> bool
    decreases i,
{
    if i <= 0 {
        init
    } else {
        match acts[i - 1] {
            ActionView::WaitChild => false,
            ActionView::Spawn { .. } => true,
            _ => live_after(init, acts, i - 1),
        }
    }
}

/// No action of the sequence spawns while a child is live: performing the
/// actions in order never yields two simultaneously running children.
pub open spec fn spawn_safe(init: bool, acts: Seq<ActionView>) -> bool {
    forall|i: int|
        0 <= i < acts.len() && (acts[i] is Spawn) ==> !live_after(init, acts, i)
}

/// Actions that neither wait nor spawn leave the child slot as it was.
proof fn lemma_live_preserved(init: bool, acts: Seq<ActionView>, j: int, i: int)
    requires
        0 <= j <= i <= acts.len(),
        forall|k: int| j <= k < i ==> !(acts[k] is WaitChild) && !(acts[k] is Spawn),
    ensures
        live_after(init, acts, i) == live_after(init, acts, j),
    decreases i - j,
{
    if i > j {
        lemma_live_preserved(init, acts, j, i - 1);
    }
}

/// Mutual exclusion on the child slot: a full restart transition — the
/// prologue [`Supervisor::event_handler`] hands out followed by the
/// launch plan of [`Supervisor::exec_plan`] — never spawns while a child
/// is live. When a child was running, the prologue's wait has fully
/// reaped it before the plan's single spawn.
pub proof fn lemma_mutual_exclusion(child_running: bool, started: bool, config: ConfigView)
    ensures
        spawn_safe(
            child_running,
            spec_prologue(child_running) + spec_exec_plan(config, started),
        ),
{
    let acts = spec_prologue(child_running) + spec_exec_plan(config, started);
    let pre = spec_pre_actions(config, started);
    let base: int = if child_running {
        2
    } else {
        0
    };
    let last = acts.len() - 1;
    assert(acts[base] == ActionView::ClearScreen);
    assert(acts[last] == (ActionView::Spawn {
        command: config.exec_cfg.command,
        args: config.exec_cfg.args,
        origin: config.exec_cfg.origin,
    }));
    assert(!live_after(child_running, acts, base)) by {
        if child_running {
            assert(acts[1] == ActionView::WaitChild);
        }
    }
    assert forall|k: int| base + 1 <= k < last implies ((#[trigger] acts[k])
        matches ActionView::RunPre { .. }) by {
        assert(acts[k] == pre[k - base - 1]);
    }
    assert forall|i: int| 0 <= i < acts.len() && (acts[i] is Spawn) implies !live_after(
        child_running,
        acts,
        i,
    ) by {
        if child_running && i < 2 {
            assert(acts[0] == ActionView::KillChild);
            assert(acts[1] == ActionView::WaitChild);
        } else if i < last {
            assert(!(acts[i] is Spawn));
        } else {
            lemma_live_preserved(child_running, acts, base + 1, last);
            if base < last {
                assert(live_after(child_running, acts, base + 1) == live_after(
                    child_running,
                    acts,
                    base,
                ));
            }
        }
    }
}

/// How many child spawns a sequence of actions performs.
pub open spec fn spawn_count(acts: Seq<ActionView>) -> int
    decreases acts.len(),
{
    if acts.len() == 0 {
        0
    } else {
        (if acts[0] is Spawn {
            1int
        } else {
            0int
        }) + spawn_count(acts.drop_first())
    }
}

proof fn lemma_spawn_count_concat(a: Seq<ActionView>, b: Seq<ActionView>)
    ensures
        spawn_count(a + b) == spawn_count(a) + spawn_count(b),
    decreases a.len(),
{
    if a.len() == 0 {
        assert(a + b =~= b);
    } else {
        lemma_spawn_count_concat(a.drop_first(), b);
        assert((a + b).drop_first() =~= a.drop_first() + b);
    }
}

proof fn lemma_spawn_count_none(acts: Seq<ActionView>)
    requires
        forall|k: int| 0 <= k < acts.len() ==> !(acts[k] is Spawn),
    ensures
        spawn_count(acts) == 0,
    decreases acts.len(),
{
    if acts.len() > 0 {
        lemma_spawn_count_none(acts.drop_first());
    }
}

/// One restart transition launches exactly one child: the prologue
/// spawns nothing and the launch plan ends in its single spawn.
pub proof fn lemma_single_spawn(child_running: bool, started: bool, config: ConfigView)
    ensures
        spawn_count(spec_prologue(child_running) + spec_exec_plan(config, started)) == 1,
{
    reveal_with_fuel(spawn_count, 3);
    let pro = spec_prologue(child_running);
    let pre = spec_pre_actions(config, started);
    let head = seq![ActionView::ClearScreen];
    let tail = seq![
        ActionView::Spawn {
            command: config.exec_cfg.command,
            args: config.exec_cfg.args,
            origin: config.exec_cfg.origin,
        },
    ];
    lemma_spawn_count_concat(pro, spec_exec_plan(config, started));
    lemma_spawn_count_concat(head + pre, tail);
    lemma_spawn_count_concat(head, pre);
    lemma_spawn_count_none(pro);
    lemma_spawn_count_none(pre);
    assert(spawn_count(head) == 0) by {
        reveal_with_fuel(spawn_count, 3);
        assert(head.drop_first() =~= Seq::<ActionView>::empty());
    }
    assert(spawn_count(tail) == 1) by {
        reveal_with_fuel(spawn_count, 3);
        assert(tail.drop_first() =~= Seq::<ActionView>::empty());
    }
}

/// How many pre-exec commands a sequence of actions runs.
pub open spec fn pre_count(acts: Seq<ActionView>) -> int
    decreases acts.len(),
{
    if acts.len() == 0 {
        0
    } else {
        (if acts[0] is RunPre {
            1int
        } else {
            0int
        }) + pre_count(acts.drop_first())
    }
}

proof fn lemma_pre_count_concat(a: Seq<ActionView>, b: Seq<ActionView>)
    ensures
        pre_count(a + b) == pre_count(a) + pre_count(b),
    decreases a.len(),
{
    if a.len() == 0 {
        assert(a + b =~= b);
    } else {
        lemma_pre_count_concat(a.drop_first(), b);
        assert((a + b).drop_first() =~= a.drop_first() + b);
    }
}

proof fn lemma_pre_count_all(acts: Seq<ActionView>)
    requires
        forall|k: int| 0 <= k < acts.len() ==> (acts[k] is RunPre),
    ensures
        pre_count(acts) == acts.len(),
    decreases acts.len(),
{
    if acts.len() > 0 {
        lemma_pre_count_all(acts.drop_first());
    }
}

/// One launch runs exactly the configured pre-exec commands when the
/// policy says to, and none otherwise.
pub proof fn lemma_exec_plan_pre_count(config: ConfigView, started: bool)
    ensures
        spec_run_pre(config.exec_pre, started) ==> pre_count(spec_exec_plan(config, started))
            == config.exec_pre->0.commands.len(),
        !spec_run_pre(config.exec_pre, started) ==> pre_count(spec_exec_plan(config, started))
            == 0,
{
    let pre = spec_pre_actions(config, started);
    let head = seq![ActionView::ClearScreen];
    let tail = seq![
        ActionView::Spawn {
            command: config.exec_cfg.command,
            args: config.exec_cfg.args,
            origin: config.exec_cfg.origin,
        },
    ];
    reveal_with_fuel(pre_count, 3);
    lemma_pre_count_concat(head + pre, tail);
    lemma_pre_count_concat(head, pre);
    assert(pre_count(head) == 0) by {
        reveal_with_fuel(pre_count, 3);
        assert(head.drop_first() =~= Seq::<ActionView>::empty());
    }
    assert(pre_count(tail) == 0) by {
        reveal_with_fuel(pre_count, 3);
        assert(tail.drop_first() =~= Seq::<ActionView>::empty());
    }
    if spec_run_pre(config.exec_pre, started) {
        lemma_pre_count_all(pre);
    }
}

/// The pre-exec policy across three consecutive launches of one
/// supervisor: the first sees `started == false`, and every launch sets
/// `started` (see [`Supervisor::exec_plan`]), so the later two see
/// `started == true`. Under `When::Once` the pre-exec sequence therefore
/// runs exactly once, before the first launch only; under `When::Always`
/// it runs before each of the three.
pub proof fn lemma_pre_exec_policy(config: ConfigView)
    requires
        config.exec_pre is Some,
    ensures
        config.exec_pre->0.when_policy == When::Once ==> pre_count(spec_exec_plan(config, false))
            + pre_count(spec_exec_plan(config, true)) + pre_count(spec_exec_plan(config, true))
            == config.exec_pre->0.commands.len(),
        config.exec_pre->0.when_policy == When::Always ==> pre_count(spec_exec_plan(config, false))
            + pre_count(spec_exec_plan(config, true)) + pre_count(spec_exec_plan(config, true))
            == 3 * config.exec_pre->0.commands.len(),
{
    lemma_exec_plan_pre_count(config, false);
    lemma_exec_plan_pre_count(config, true);
}

/// Classification is a pure function of the configuration and the event:
/// identical inputs always yield identical ignore decisions.
pub proof fn lemma_classification_pure(c1: ConfigView, c2: ConfigView, e1: EventView, e2: EventView)
    requires
        c1 == c2,
        e1 == e2,
    ensures
        event_ignored(c1, e1) == event_ignored(c2, e2),
{
}

/// The event-level rule: an event whose kind yields an `is_dir` hint is
/// ignored exactly when every one of its paths is ignored, and a single
/// path that is not ignored suffices to act on the whole event.
pub proof fn lemma_event_level_rule(config: ConfigView, event: EventView, d: bool)
    requires
        is_dir_hint(event.kind) == Some(d),
    ensures
        event_ignored(config, event) <==> (forall|i: int|
            0 <= i < event.paths.len() ==> path_ignored(config, event.paths[i], d)),
        (exists|i: int| 0 <= i < event.paths.len() && !path_ignored(config, event.paths[i], d))
            ==> !event_ignored(config, event),
{
}

/// The state after the supervisor answers one event at time `now`: an
/// event inside the debounce window or ignored by the classifier leaves
/// the state alone; a reacted-to event empties the child slot and opens a
/// new window (what [`Supervisor::event_handler`] does).
pub open spec fn spec_step(s: Supervisor, config: ConfigView, event: EventView, now: u64) -> Supervisor {
    if spec_in_window(s.last_reaction, now) {
        s
    } else if event_ignored(config, event) {
        s
    } else {
        Supervisor { child_running: false, started: s.started, last_reaction: Some(now) }
    }
}

/// Whether answering the event opens a restart.
pub open spec fn spec_reacts(s: Supervisor, config: ConfigView, event: EventView, now: u64) -> bool {
    !spec_in_window(s.last_reaction, now) && !event_ignored(config, event)
}

/// How many events of a timed stream the supervisor reacts to, stepping
/// through them in order.
pub open spec fn reaction_count(
    s: Supervisor,
    config: ConfigView,
    events: Seq<EventView>,
    times: Seq<u64>,
) -> int
    decreases events.len(),
{
    if events.len() == 0 || times.len() == 0 {
        0
    } else {
        (if spec_reacts(s, config, events[0], times[0]) {
            1int
        } else {
            0int
        }) + reaction_count(
            spec_step(s, config, events[0], times[0]),
            config,
            events.drop_first(),
            times.drop_first(),
        )
    }
}

/// Events arriving while the debounce window stands open are all drained:
/// none of them is reacted to, and the state never changes.
proof fn lemma_window_absorbs(
    s: Supervisor,
    config: ConfigView,
    events: Seq<EventView>,
    times: Seq<u64>,
    t0: u64,
)
    requires
        s.last_reaction == Some(t0),
        events.len() == times.len(),
        forall|i: int| 0 <= i < times.len() ==> #[trigger] times[i] < t0 + DEBOUNCE_WINDOW_MS,
    ensures
        reaction_count(s, config, events, times) == 0,
    decreases events.len(),
{
    if events.len() > 0 {
        assert(spec_in_window(s.last_reaction, times[0]));
        assert(spec_step(s, config, events[0], times[0]) == s);
        assert forall|i: int| 0 <= i < times.drop_first().len() implies times.drop_first()[i] < t0
            + DEBOUNCE_WINDOW_MS by {
            assert(times.drop_first()[i] == times[i + 1]);
        }
        lemma_window_absorbs(s, config, events.drop_first(), times.drop_first(), t0);
    }
}

/// Debounce: a burst of events within the debounce window after the
/// first reacted-to one yields exactly one reaction, however many the
/// burst holds and whether or not the later events would have qualified.
pub proof fn lemma_debounce_burst(
    s: Supervisor,
    config: ConfigView,
    events: Seq<EventView>,
    times: Seq<u64>,
)
    requires
        events.len() == times.len(),
        events.len() > 0,
        !spec_in_window(s.last_reaction, times[0]),
        !event_ignored(config, events[0]),
        forall|i: int| 1 <= i < times.len() ==> #[trigger] times[i] < times[0] + DEBOUNCE_WINDOW_MS,
    ensures
        reaction_count(s, config, events, times) == 1,
{
    assert(spec_reacts(s, config, events[0], times[0]));
    let s1 = spec_step(s, config, events[0], times[0]);
    assert(s1.last_reaction == Some(times[0]));
    assert forall|i: int| 0 <= i < times.drop_first().len() implies times.drop_first()[i]
        < times[0] + DEBOUNCE_WINDOW_MS by {
        assert(times.drop_first()[i] == times[i + 1]);
    }
    lemma_window_absorbs(s1, config, events.drop_first(), times.drop_first(), times[0]);
}

/// The dispatch rule of the handler, outside an open debounce window: it
/// reacts exactly when the event's kind carries an `is_dir` hint
/// (creations, removals, data and name modifications) and at least one
/// path is not ignored under that hint; metadata-only, access and unknown
/// kinds never restart.
pub proof fn lemma_dispatch_rule(s: Supervisor, config: ConfigView, event: EventView, now: u64)
    requires
        !spec_in_window(s.last_reaction, now),
    ensures
        spec_reacts(s, config, event, now) <==> (match is_dir_hint(event.kind) {
            Some(d) => exists|i: int|
                0 <= i < event.paths.len() && !path_ignored(config, event.paths[i], d),
            None => false,
        }),
{
}

} // verus!
