//! Trusted interface to the `ignore` crate's gitignore-style matcher.
//!
//! A [`ignore::gitignore::Gitignore`] value is an opaque, immutable set of
//! pattern rules loaded from a pattern file. Matching is a pure function of
//! the matcher value and the queried path, which the uninterpreted functions
//! below capture: `gitignore_matches` names the set of (path, is_dir) pairs
//! the matcher reports as ignored, and `gitignore_root` names the root
//! directory the matcher was built with, as text when that is valid UTF-8.

use crate::strings::has_prefix;
use vstd::prelude::*;

verus! {

#[verifier::external_type_specification]
#[verifier::external_body]
pub struct ExGitignore(ignore::gitignore::Gitignore);

/// The set of (path, is_dir) pairs that `matched_path_or_any_parents`
/// reports as ignored for this matcher.
pub uninterp spec fn gitignore_matches(g: ignore::gitignore::Gitignore) -> Set<(Seq<char>, bool)>;

/// The root directory the matcher was built with (what `Gitignore::path`
/// returns): its text when the root is valid UTF-8, `None` otherwise.
pub uninterp spec fn gitignore_root(g: ignore::gitignore::Gitignore) -> Option<Seq<char>>;

/// `path` with one leading `./` removed, as the matcher's own stripping
/// does before anything else.
pub open spec fn strip_dot_slash(path: Seq<char>) -> Seq<char> {
    if path.len() >= 2 && path[0] == '.' && path[1] == '/' {
        path.subrange(2, path.len() as int)
    } else {
        path
    }
}

/// A path that can safely be handed to `matched_path_or_any_parents`.
///
/// Before matching, the call strips one leading `./`, then — unless its
/// root is `.` — strips the root as a byte prefix of the remainder plus at
/// most one following `/`, and finally panics if what is left is still
/// absolute. So, writing `p` for the path after the `./` strip:
/// - an absolute `p` is safe when it lies strictly below an absolute,
///   UTF-8 root with a single separator after it (the root strip then
///   leaves a relative remainder);
/// - a relative `p` is safe unless the root's text is a prefix of `p`
///   followed by two separators (whose strip would leave an absolute
///   remainder). A root that is not valid UTF-8 can only match a relative
///   `p` up to a truncated character, after which the remainder starts
///   with a continuation byte, never a separator — so it is always safe.
pub open spec fn path_under_root(root: Option<Seq<char>>, path: Seq<char>) -> bool {
    let p = strip_dot_slash(path);
    if p.len() > 0 && p[0] == '/' {
        root matches Some(r) && r.len() > 0 && r[0] == '/' && p.len() > r.len()
            && p.subrange(0, r.len() as int) == r && p[r.len() as int] == '/'
            && (p.len() == r.len() + 1 || p[r.len() + 1int] != '/')
    } else {
        match root {
            Some(r) => !(p.len() >= r.len() + 2 && p.subrange(0, r.len() as int) == r
                && p[r.len() as int] == '/' && p[r.len() + 1int] == '/'),
            None => true,
        }
    }
}

/// Relies on `ignore::gitignore::Gitignore::matched_path_or_any_parents`:
/// matching is deterministic in the matcher value, the path and the
/// `is_dir` hint, and the call returns (rather than panicking) on every
/// path that [`path_under_root`] admits, since the matcher's stripping
/// then leaves a relative remainder.
#[verifier::external_body]
pub(crate) fn gitignore_is_match(g: &ignore::gitignore::Gitignore, path: &str, is_dir: bool) -> (r: bool)
    requires
        path_under_root(gitignore_root(*g), path@),
    ensures
        r == gitignore_matches(*g).contains((path@, is_dir)),
{
    g.matched_path_or_any_parents(std::path::Path::new(path), is_dir).is_ignore()
}

/// Relies on `ignore::gitignore::Gitignore::path`: the root directory the
/// matcher was built with, a fixed attribute of the matcher value.
#[verifier::external_body]
pub(crate) fn gitignore_root_text(g: &ignore::gitignore::Gitignore) -> (r: Option<String>)
    ensures
        r.deep_view() == gitignore_root(*g),
{
    match g.path().to_str() {
        Some(s) => Some(s.to_owned()),
        None => None,
    }
}

/// Whether the matcher can safely be asked about `path`
/// (see [`path_under_root`]).
pub(crate) fn root_admits(g: &ignore::gitignore::Gitignore, path: &str) -> (r: bool)
    ensures
        r == path_under_root(gitignore_root(*g), path@),
{
    let len = path.unicode_len();
    let d: usize = if len >= 2 && path.get_char(0) == '.' && path.get_char(1) == '/' {
        2
    } else {
        0
    };
    let p = path.substring_char(d, len);
    proof {
        if d == 0 {
            assert(path@.subrange(0, len as int) =~= path@);
        }
        assert(p@ == strip_dot_slash(path@));
    }
    let p_len = p.unicode_len();
    let root_text = gitignore_root_text(g);
    if p_len > 0 && p.get_char(0) == '/' {
        match root_text {
            Some(root) => {
                let root_str = root.as_str();
                let r_len = root_str.unicode_len();
                r_len > 0 && root_str.get_char(0) == '/' && p_len > r_len && has_prefix(
                    p,
                    root_str,
                ) && p.get_char(r_len) == '/' && (p_len == r_len + 1 || p.get_char(r_len + 1)
                    != '/')
            },
            None => false,
        }
    } else {
        match root_text {
            Some(root) => {
                let root_str = root.as_str();
                let r_len = root_str.unicode_len();
                if p_len >= 2 && r_len <= p_len - 2 && has_prefix(p, root_str) && p.get_char(r_len)
                    == '/' && p.get_char(r_len + 1) == '/' {
                    false
                } else {
                    true
                }
            },
            None => true,
        }
    }
}

} // verus!
