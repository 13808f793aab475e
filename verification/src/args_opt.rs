//! The CLI-sourced side of the configuration: plain option bags filled by
//! the argument parser and consumed field-by-field by the merger.

use vstd::prelude::*;

verus! {

/// Everything the command line can supply, each section optional.
pub struct ArgsOpt {
    pub exec_opt: Option<ArgsOptExec>,
    pub exec_pre: Option<ArgsOptExecPre>,
    pub exclude: Option<Vec<String>>,
    pub extend: Option<ArgsOptExtend>,
}

impl ArgsOpt {
    pub fn take_exec(&mut self) -> (r: Option<ArgsOptExec>)
        ensures
            r == old(self).exec_opt,
            final(self).exec_opt is None,
            final(self).exec_pre == old(self).exec_pre,
            final(self).exclude == old(self).exclude,
            final(self).extend == old(self).extend,
    {
        self.exec_opt.take()
    }

    pub fn take_exec_pre(&mut self) -> (r: Option<ArgsOptExecPre>)
        ensures
            r == old(self).exec_pre,
            final(self).exec_pre is None,
            final(self).exec_opt == old(self).exec_opt,
            final(self).exclude == old(self).exclude,
            final(self).extend == old(self).extend,
    {
        self.exec_pre.take()
    }

    pub fn take_exclude(&mut self) -> (r: Option<Vec<String>>)
        ensures
            r == old(self).exclude,
            final(self).exclude is None,
            final(self).exec_opt == old(self).exec_opt,
            final(self).exec_pre == old(self).exec_pre,
            final(self).extend == old(self).extend,
    {
        self.exclude.take()
    }

    pub fn take_extend(&mut self) -> (r: Option<ArgsOptExtend>)
        ensures
            r == old(self).extend,
            final(self).extend is None,
            final(self).exec_opt == old(self).exec_opt,
            final(self).exec_pre == old(self).exec_pre,
            final(self).exclude == old(self).exclude,
    {
        self.extend.take()
    }
}

/// The `exec` section of the command line: a command string and an origin.
pub struct ArgsOptExec {
    pub exec_str: Option<String>,
    pub origin: Option<String>,
}

impl ArgsOptExec {
    pub fn take_exec(&mut self) -> (r: Option<String>)
        ensures
            r == old(self).exec_str,
            final(self).exec_str is None,
            final(self).origin == old(self).origin,
    {
        self.exec_str.take()
    }

    pub fn take_origin(&mut self) -> (r: Option<String>)
        ensures
            r == old(self).origin,
            final(self).origin is None,
            final(self).exec_str == old(self).exec_str,
    {
        self.origin.take()
    }
}

/// The `exec_pre` section of the command line: command strings, a run
/// policy and an origin.
pub struct ArgsOptExecPre {
    pub exec_pre: Option<Vec<String>>,
    pub when: Option<ArgsOptWhen>,
    pub origin_pre: Option<String>,
}

impl ArgsOptExecPre {
    pub fn take_exec_pre(&mut self) -> (r: Option<Vec<String>>)
        ensures
            r == old(self).exec_pre,
            final(self).exec_pre is None,
            final(self).when == old(self).when,
            final(self).origin_pre == old(self).origin_pre,
    {
        self.exec_pre.take()
    }

    pub fn take_when(&mut self) -> (r: Option<ArgsOptWhen>)
        ensures
            r == old(self).when,
            final(self).when is None,
            final(self).exec_pre == old(self).exec_pre,
            final(self).origin_pre == old(self).origin_pre,
    {
        self.when.take()
    }

    pub fn take_origin_pre(&mut self) -> (r: Option<String>)
        ensures
            r == old(self).origin_pre,
            final(self).origin_pre is None,
            final(self).exec_pre == old(self).exec_pre,
            final(self).when == old(self).when,
    {
        self.origin_pre.take()
    }
}

/// When the pre-exec commands should run, as the command line spells it.
#[derive(Clone, Copy, PartialEq, Eq, Structural)]
pub enum ArgsOptWhen {
    Once,
    Always,
}

/// The `extend` section of the command line: pattern-file paths paired
/// positionally with their kinds.
pub struct ArgsOptExtend {
    pub extend: Option<Vec<String>>,
    pub extendable_type: Option<Vec<ArgsOptExtendableType>>,
}

impl ArgsOptExtend {
    pub fn take_extend(&mut self) -> (r: Option<Vec<String>>)
        ensures
            r == old(self).extend,
            final(self).extend is None,
            final(self).extendable_type == old(self).extendable_type,
    {
        self.extend.take()
    }

    pub fn take_extendable_type(&mut self) -> (r: Option<Vec<ArgsOptExtendableType>>)
        ensures
            r == old(self).extendable_type,
            final(self).extendable_type is None,
            final(self).extend == old(self).extend,
    {
        self.extendable_type.take()
    }
}

/// The kind of pattern file an `extend` entry names.
#[derive(Clone, Copy, PartialEq, Eq, Structural)]
pub enum ArgsOptExtendableType {
    Git,
}

} // verus!
