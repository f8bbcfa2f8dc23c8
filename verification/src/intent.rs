//! From a raw request to the path that is looked up.
//!
//! Two decisions are taken here. The first argument of the process counts as
//! a path unless it starts with the flag marker. A relative path is joined to
//! the working directory before it is canonicalized; an absolute one is taken
//! as it stands.

use vstd::prelude::*;

verus! {

/// The character that opens a command-line flag.
pub const FLAG_MARKER: char = '-';

/// An argument is a flag when it starts with the flag marker. An argument
/// that names an existing file is a flag all the same.
pub open spec fn spec_is_flag(arg: Seq<char>) -> bool {
    arg.len() > 0 && arg[0] == FLAG_MARKER
}

/// The path that a launch asks to open: the argument at index 1, where there
/// is one and it is no flag. The argument at index 0 names the program.
pub open spec fn spec_startup_path(args: Seq<String>) -> Option<Seq<char>> {
    if args.len() > 1 && !spec_is_flag(args[1]@) {
        Some(args[1]@)
    } else {
        None
    }
}

/// Whether the platform's path rules call `path` absolute, as
/// `std::path::Path::is_absolute` decides it.
pub uninterp spec fn is_absolute_path(path: Seq<char>) -> bool;

/// `base` with `path` adjoined under the platform's path rules, as
/// `std::path::Path::join` builds it.
pub uninterp spec fn joined_path(base: Seq<char>, path: Seq<char>) -> Seq<char>;

/// The path that is handed to canonicalization for the raw path `raw`, given
/// whether `raw` is absolute.
pub open spec fn candidate_of(raw: Seq<char>, absolute: bool, working_dir: Seq<char>) -> Seq<char> {
    if absolute {
        raw
    } else {
        joined_path(working_dir, raw)
    }
}

/// Trusted: calls `std::path::Path::is_absolute` on `path`. The answer
/// depends on the text of the path and on the path rules of the platform the
/// library is built for, on nothing that is read at run time; the contract
/// gives that answer the name [`is_absolute_path`] and says no more of it.
#[verifier::external_body]
fn path_is_absolute(path: &str) -> (absolute: bool)
    ensures
        absolute == is_absolute_path(path@),
{
    std::path::Path::new(path).is_absolute()
}

/// Trusted: calls `std::path::Path::join` on `base` with `path`. Both are
/// text, so the joined path is text too and is handed back as a `String`. The
/// result depends on the two texts and on the path rules of the platform the
/// library is built for; the contract gives it the name [`joined_path`] and
/// says no more of it.
#[verifier::external_body]
fn path_join(base: &str, path: &str) -> (joined: String)
    ensures
        joined@ == joined_path(base@, path@),
{
    std::path::Path::new(base).join(path).to_string_lossy().into_owned()
}

/// Tells whether `arg` is a flag rather than a path.
pub fn is_flag(arg: &str) -> (flag: bool)
    ensures
        flag == spec_is_flag(arg@),
{
    if arg.is_empty() {
        false
    } else {
        arg.get_char(0) == FLAG_MARKER
    }
}

/// Picks the path to open out of the arguments of the process. A first
/// argument that starts with the flag marker is never handed on as a path.
pub fn startup_path(args: &Vec<String>) -> (path: Option<&str>)
    ensures
        args@.len() > 1 && spec_is_flag(args@[1]@) ==> path is None,
        match path {
            Some(p) => spec_startup_path(args@) == Some(p@),
            None => spec_startup_path(args@) is None,
        },
{
    if args.len() > 1 && !is_flag(args[1].as_str()) {
        Some(args[1].as_str())
    } else {
        None
    }
}

/// The path to canonicalize for `raw`, once it is known whether `raw` is
/// absolute: `raw` itself where it is, else `raw` joined to `working_dir`.
pub fn candidate_given(raw: &str, absolute: bool, working_dir: &str) -> (candidate: String)
    ensures
        candidate@ == candidate_of(raw@, absolute, working_dir@),
{
    if absolute {
        raw.to_owned()
    } else {
        path_join(working_dir, raw)
    }
}

/// The path to canonicalize for `raw`: `raw` itself where it is absolute,
/// else `raw` joined to `working_dir`.
pub fn candidate_path(raw: &str, working_dir: &str) -> (candidate: String)
    ensures
        candidate@ == candidate_of(raw@, is_absolute_path(raw@), working_dir@),
{
    let absolute = path_is_absolute(raw);
    candidate_given(raw, absolute, working_dir)
}

} // verus!
