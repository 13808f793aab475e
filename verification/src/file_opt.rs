//! The file-sourced side of the configuration: plain option bags that the
//! caller fills from the parsed configuration file, plus the extend-matcher
//! capability over gitignore-style pattern files.

use crate::gitignore::{gitignore_is_match, gitignore_matches, gitignore_root, path_under_root,
    root_admits};
use vstd::prelude::*;

verus! {

/// Everything the configuration file can supply, each section optional.
pub struct FileOpt {
    pub exec_opt: Option<FileOptExec>,
    pub exec_pre: Option<FileOptExecPre>,
    pub exclude: Option<FileOptExclude>,
    pub extend: Option<FileOptExtend>,
}

impl FileOpt {
    pub fn take_exec(&mut self) -> (r: Option<FileOptExec>)
        ensures
            r == old(self).exec_opt,
            final(self).exec_opt is None,
            final(self).exec_pre == old(self).exec_pre,
            final(self).exclude == old(self).exclude,
            final(self).extend == old(self).extend,
    {
        self.exec_opt.take()
    }

    pub fn take_exec_pre(&mut self) -> (r: Option<FileOptExecPre>)
        ensures
            r == old(self).exec_pre,
            final(self).exec_pre is None,
            final(self).exec_opt == old(self).exec_opt,
            final(self).exclude == old(self).exclude,
            final(self).extend == old(self).extend,
    {
        self.exec_pre.take()
    }

    pub fn take_exclude(&mut self) -> (r: Option<FileOptExclude>)
        ensures
            r == old(self).exclude,
            final(self).exclude is None,
            final(self).exec_opt == old(self).exec_opt,
            final(self).exec_pre == old(self).exec_pre,
            final(self).extend == old(self).extend,
    {
        self.exclude.take()
    }

    pub fn take_extend(&mut self) -> (r: Option<FileOptExtend>)
        ensures
            r == old(self).extend,
            final(self).extend is None,
            final(self).exec_opt == old(self).exec_opt,
            final(self).exec_pre == old(self).exec_pre,
            final(self).exclude == old(self).exclude,
    {
        self.extend.take()
    }
}

/// The `exec` section of the configuration file.
pub struct FileOptExec {
    pub command: Option<String>,
    pub args: Option<Vec<String>>,
    pub origin: Option<String>,
}

impl FileOptExec {
    pub fn take_command(&mut self) -> (r: Option<String>)
        ensures
            r == old(self).command,
            final(self).command is None,
            final(self).args == old(self).args,
            final(self).origin == old(self).origin,
    {
        self.command.take()
    }

    pub fn take_args(&mut self) -> (r: Option<Vec<String>>)
        ensures
            r == old(self).args,
            final(self).args is None,
            final(self).command == old(self).command,
            final(self).origin == old(self).origin,
    {
        self.args.take()
    }

    pub fn take_origin(&mut self) -> (r: Option<String>)
        ensures
            r == old(self).origin,
            final(self).origin is None,
            final(self).command == old(self).command,
            final(self).args == old(self).args,
    {
        self.origin.take()
    }
}

/// The `exec_pre` section of the configuration file.
pub struct FileOptExecPre {
    pub origin: Option<String>,
    pub when: Option<FileOptWhen>,
    pub commands: Option<Vec<FileOptExecPreCommand>>,
}

impl FileOptExecPre {
    pub fn take_when(&mut self) -> (r: Option<FileOptWhen>)
        ensures
            r == old(self).when,
            final(self).when is None,
            final(self).origin == old(self).origin,
            final(self).commands == old(self).commands,
    {
        self.when.take()
    }

    pub fn take_commands(&mut self) -> (r: Option<Vec<FileOptExecPreCommand>>)
        ensures
            r == old(self).commands,
            final(self).commands is None,
            final(self).origin == old(self).origin,
            final(self).when == old(self).when,
    {
        self.commands.take()
    }

    pub fn take_origin(&mut self) -> (r: Option<String>)
        ensures
            r == old(self).origin,
            final(self).origin is None,
            final(self).when == old(self).when,
            final(self).commands == old(self).commands,
    {
        self.origin.take()
    }
}

/// When the pre-exec commands should run, as the configuration file
/// spells it.
#[derive(Clone, Copy, PartialEq, Eq, Structural)]
pub enum FileOptWhen {
    Once,
    Always,
}

/// One pre-exec command of the configuration file.
pub struct FileOptExecPreCommand {
    pub command: Option<String>,
    pub args: Option<Vec<String>>,
}

impl FileOptExecPreCommand {
    pub fn take_command(&mut self) -> (r: Option<String>)
        ensures
            r == old(self).command,
            final(self).command is None,
            final(self).args == old(self).args,
    {
        self.command.take()
    }

    pub fn take_args(&mut self) -> (r: Option<Vec<String>>)
        ensures
            r == old(self).args,
            final(self).args is None,
            final(self).command == old(self).command,
    {
        self.args.take()
    }
}

/// The `exclude` section of the configuration file: a list of path
/// substrings to ignore.
pub struct FileOptExclude {
    pub files: Vec<IgnorablePath>,
}

impl FileOptExclude {
    /// The configured substrings, in order.
    pub fn take_exclude_files(self) -> (r: Vec<String>)
        ensures
            r.deep_view() == self.files.deep_view(),
    {
        let mut r: Vec<String> = Vec::new();
        let files = self.files;
        let n = files.len();
        let mut i: usize = 0;
        while i < n
            invariant
                n == files@.len(),
                i <= n,
                r.deep_view() == files.deep_view().subrange(0, i as int),
            decreases n - i,
        {
            let ghost r_before = r.deep_view();
            let p = files[i].path.clone();
            r.push(p);
            proof {
                assert(r.deep_view() =~= r_before.push(files.deep_view()[i as int]));
                assert(r_before.push(files.deep_view()[i as int]) =~= files.deep_view().subrange(
                    0,
                    i + 1,
                ));
            }
            i = i + 1;
        }
        proof {
            assert(r.deep_view() =~= files.deep_view());
        }
        r
    }
}

/// One excluded path substring.
pub struct IgnorablePath {
    pub path: String,
}

impl IgnorablePath {
    pub fn take_path(self) -> (r: String)
        ensures
            r == self.path,
    {
        self.path
    }
}

impl DeepView for IgnorablePath {
    type V = Seq<char>;

    open spec fn deep_view(&self) -> Seq<char> {
        self.path@
    }
}

/// A capability that classifies a path as ignorable, given a hint whether
/// the path is a directory.
pub trait Extendable {
    /// What the capability matches, as a predicate over the path's text.
    spec fn spec_matches(&self, path: Seq<char>, is_dir: bool) -> bool;

    /// Whether the capability matches `path` with the `is_dir` hint.
    fn matcher(&self, path: &str, is_dir: bool) -> (r: bool)
        ensures
            r == self.spec_matches(path@, is_dir),
    ;
}

/// The closed set of pattern kinds an `extend` entry can name: currently
/// gitignore-style pattern files only.
pub enum ExtendableType {
    Git(GitignoreSerde),
}

/// A built gitignore-style matcher, ready to be queried.
pub struct GitignoreSerde(pub ignore::gitignore::Gitignore);

impl Extendable for ExtendableType {
    /// A gitignore matcher matches what its rule set reports as ignored;
    /// paths it cannot safely be asked about (absolute paths outside its
    /// root) match nothing.
    open spec fn spec_matches(&self, path: Seq<char>, is_dir: bool) -> bool {
        match self {
            ExtendableType::Git(wrapper) => path_under_root(gitignore_root(wrapper.0), path)
                && gitignore_matches(wrapper.0).contains((path, is_dir)),
        }
    }

    fn matcher(&self, path: &str, is_dir: bool) -> (r: bool) {
        match self {
            ExtendableType::Git(wrapper) => {
                if root_admits(&wrapper.0, path) {
                    gitignore_is_match(&wrapper.0, path, is_dir)
                } else {
                    false
                }
            },
        }
    }
}

/// The `extend` section of the configuration file: the matchers built from
/// its entries.
pub struct FileOptExtend {
    pub extendables: Vec<ExtendableType>,
}

impl FileOptExtend {
    pub fn take_extendables(self) -> (r: Vec<ExtendableType>)
        ensures
            r == self.extendables,
    {
        self.extendables
    }
}

} // verus!
