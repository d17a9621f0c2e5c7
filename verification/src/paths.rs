//! Paths among the options, made independent of the working directory.
//!
//! A detached process runs in another working directory than the command
//! that started it. Every path among the options is therefore rewritten to an
//! absolute one before any file is opened and before the detach. Paths follow
//! the POSIX convention: `/` separates, and a path is absolute when it begins
//! with `/`.

use crate::config::{ServeArgs, ServeArgsView};
use vstd::prelude::*;
use vstd::string::*;

verus! {

/// Whether `path` begins at the root.
pub open spec fn is_absolute(path: Seq<char>) -> bool {
    path.len() > 0 && path[0] == '/'
}

/// `path` as seen from the directory `base`: `path` itself where it is
/// absolute, else `base` and `path` with one separator between them.
pub open spec fn joined(base: Seq<char>, path: Seq<char>) -> Seq<char> {
    if is_absolute(path) {
        path
    } else if base.len() == 0 || base.last() == '/' {
        base + path
    } else {
        base + seq!['/'] + path
    }
}

/// `joined` on a path that may be unset.
pub open spec fn joined_option(base: Seq<char>, path: Option<Seq<char>>) -> Option<Seq<char>> {
    match path {
        Some(p) => Some(joined(base, p)),
        None => None,
    }
}

/// The options with every path among them taken from `working_dir`.
pub open spec fn normalized(args: ServeArgsView, working_dir: Seq<char>) -> ServeArgsView {
    ServeArgsView {
        config: joined_option(working_dir, args.config),
        tls_cert: joined_option(working_dir, args.tls_cert),
        tls_key: joined_option(working_dir, args.tls_key),
        ..args
    }
}

/// Whether every path among the options is absolute.
pub open spec fn paths_absolute(args: ServeArgsView) -> bool {
    &&& args.config matches Some(p) ==> is_absolute(p)
    &&& args.tls_cert matches Some(p) ==> is_absolute(p)
    &&& args.tls_key matches Some(p) ==> is_absolute(p)
}

/// From an absolute working directory every path comes out absolute, and a
/// path that is absolute already is left as it is, whatever the directory.
pub proof fn lemma_joined_absolute(base: Seq<char>, path: Seq<char>)
    ensures
        is_absolute(base) ==> is_absolute(joined(base, path)),
        is_absolute(path) ==> joined(base, path) == path,
{
}

/// Normalizing from an absolute working directory leaves no relative path,
/// and normalizing once more, from any directory, changes nothing: options
/// that were fixed before a detach need no fixing after it.
pub proof fn lemma_normalized_is_stable(
    args: ServeArgsView,
    working_dir: Seq<char>,
    later_dir: Seq<char>,
)
    requires
        is_absolute(working_dir),
    ensures
        paths_absolute(normalized(args, working_dir)),
        normalized(normalized(args, working_dir), later_dir) == normalized(args, working_dir),
{
    if let Some(p) = args.config {
        lemma_joined_absolute(working_dir, p);
    }
    if let Some(p) = args.tls_cert {
        lemma_joined_absolute(working_dir, p);
    }
    if let Some(p) = args.tls_key {
        lemma_joined_absolute(working_dir, p);
    }
}

/// Whether `path` begins at the root.
pub fn absolute(path: &str) -> (r: bool)
    ensures
        r == is_absolute(path@),
{
    path.unicode_len() > 0 && path.get_char(0) == '/'
}

/// Takes `path` from the directory `base`.
pub fn join(base: &str, path: &str) -> (out: String)
    ensures
        out@ == joined(base@, path@),
{
    if absolute(path) {
        return String::from_str(path);
    }
    let mut out = String::from_str(base);
    let len = base.unicode_len();
    if len > 0 && base.get_char(len - 1) != '/' {
        proof {
            reveal_strlit("/");
            assert("/"@ =~= seq!['/']);
        }
        out.append("/");
    }
    out.append(path);
    out
}

fn join_option(base: &str, path: Option<String>) -> (out: Option<String>)
    ensures
        out.deep_view() == joined_option(base@, path.deep_view()),
{
    match path {
        Some(p) => Some(join(base, p.as_str())),
        None => None,
    }
}

/// Rewrites every path among the options to one taken from `working_dir`.
pub fn normalize(args: ServeArgs, working_dir: &str) -> (out: ServeArgs)
    ensures
        out@ == normalized(args@, working_dir@),
{
    ServeArgs {
        config: join_option(working_dir, args.config),
        tls_cert: join_option(working_dir, args.tls_cert),
        tls_key: join_option(working_dir, args.tls_key),
        ..args
    }
}

} // verus!
