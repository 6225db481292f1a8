//! The process boundary: what the command line asks for, which file an entry
//! path stands for, and what is left of a script once its interpreter line
//! is taken off.

use vstd::prelude::*;
use crate::context::IoFailure;
use crate::path::{child_of, child_path};
use crate::resolver::{PathKind, ENTRY_FILE, SCRIPT_EXTENSION};
use crate::text::{
    chars_start_with, ends_with, find_char, first_position, from_chars, str_eq, to_chars,
    views_of,
};

verus! {

/// The entry file of a workspace, tried first.
pub const WORKSPACE_INIT: &'static str = "src/init.luau";

/// The entry file of a workspace, tried second.
pub const WORKSPACE_MAIN: &'static str = "src/main.luau";

/// Exit code of a run that ended without an uncaught error.
pub const EXIT_SUCCESS: i32 = 0;

/// Exit code of a run that ended with an uncaught error.
pub const EXIT_FAILURE: i32 = 1;

/// What the command line asks for.
#[derive(Clone, Debug, PartialEq, Eq)]
pub enum Invocation {
    /// Print the help text.
    Help,
    /// Set a project up in the working directory.
    Setup,
    /// Evaluate the snippet.
    Eval(String),
    /// Run the workspace in the working directory.
    RunWorkspace,
    /// Run the script, or the directory, at this path.
    RunPath(String),
}

/// `Invocation` over sequences of characters.
pub enum InvocationView {
    Help,
    Setup,
    Eval(Seq<char>),
    RunWorkspace,
    RunPath(Seq<char>),
}

impl View for Invocation {
    type V = InvocationView;

    open spec fn view(&self) -> InvocationView {
        match self {
            Invocation::Help => InvocationView::Help,
            Invocation::Setup => InvocationView::Setup,
            Invocation::Eval(s) => InvocationView::Eval(s@),
            Invocation::RunWorkspace => InvocationView::RunWorkspace,
            Invocation::RunPath(p) => InvocationView::RunPath(p@),
        }
    }
}

/// A command line that asks for nothing that can be done.
#[derive(Clone, Copy, Debug, PartialEq, Eq, Structural)]
pub enum UsageError {
    /// Nothing follows the program's name.
    NoArguments,
    /// `eval` without a snippet.
    EvalWithoutSource,
}

/// Why an entry path cannot be run.
#[derive(Clone, Copy, Debug, PartialEq, Eq, Structural)]
pub enum EntryError {
    /// Nothing is at the path.
    NotFound,
    /// The path names a file that is no script.
    NotAScript,
    /// The path names a directory without an entry file.
    DirectoryWithoutEntry,
}

/// What the arguments `args` ask for; `args[0]` is the program's name.
pub open spec fn invocation_of(args: Seq<Seq<char>>) -> Result<InvocationView, UsageError> {
    if args.len() <= 1 {
        Err(UsageError::NoArguments)
    } else if args[1] == "--help"@ || args[1] == "-h"@ {
        Ok(InvocationView::Help)
    } else if args[1] == "setup"@ {
        Ok(InvocationView::Setup)
    } else if args[1] == "eval"@ {
        if args.len() <= 2 {
            Err(UsageError::EvalWithoutSource)
        } else {
            Ok(InvocationView::Eval(args[2]))
        }
    } else if args[1] == "run"@ {
        if args.len() >= 3 && SCRIPT_EXTENSION@.is_suffix_of(args[2]) {
            Ok(InvocationView::RunPath(args[2]))
        } else {
            Ok(InvocationView::RunWorkspace)
        }
    } else {
        Ok(InvocationView::RunPath(args[1]))
    }
}

/// Whether the command line asks for panics to be shown as they come:
/// exactly three arguments, the last of them `--debug`.
pub open spec fn wants_debug(args: Seq<Seq<char>>) -> bool {
    args.len() == 3 && args[2] == "--debug"@
}

/// The entry file of the workspace: `src/init.luau` when that is a file,
/// else `src/main.luau` when `src` is a directory and that is a file.
pub open spec fn workspace_entry(init: PathKind, src: PathKind, main: PathKind) -> Option<
    Seq<char>,
> {
    if init == PathKind::File {
        Some(WORKSPACE_INIT@)
    } else if src == PathKind::Directory && main == PathKind::File {
        Some(WORKSPACE_MAIN@)
    } else {
        None
    }
}

/// The file that stands for the entry path `path`: the path itself when it
/// names a script file, the entry file inside when it names a directory
/// that holds one.
pub open spec fn entry_file(path: Seq<char>, kind: PathKind, entry: PathKind) -> Result<
    Seq<char>,
    EntryError,
> {
    match kind {
        PathKind::Missing => Err(EntryError::NotFound),
        PathKind::File => if SCRIPT_EXTENSION@.is_suffix_of(path) {
            Ok(path)
        } else {
            Err(EntryError::NotAScript)
        },
        PathKind::Directory => if entry == PathKind::File {
            Ok(child_of(path, ENTRY_FILE@))
        } else {
            Err(EntryError::DirectoryWithoutEntry)
        },
    }
}

/// A script without its interpreter line: when the text begins with `#!`
/// and holds a line break, what follows the first line break; else the text
/// as it is.
pub open spec fn without_shebang(source: Seq<char>) -> Seq<char> {
    let end = first_position(source, '\n');
    if "#!"@.is_prefix_of(source) && end < source.len() {
        source.skip(end as int + 1)
    } else {
        source
    }
}

/// The exit code of a run.
pub open spec fn exit_code(failed: bool) -> i32 {
    if failed {
        EXIT_FAILURE
    } else {
        EXIT_SUCCESS
    }
}

/// What the arguments ask for; `args[0]` is the program's name.
pub fn parse_arguments(args: &Vec<String>) -> (out: Result<Invocation, UsageError>)
    ensures
        match invocation_of(views_of(args@)) {
            Ok(v) => out matches Ok(i) && i@ == v,
            Err(e) => out == Err::<Invocation, UsageError>(e),
        },
{
    let n = args.len();
    if n <= 1 {
        return Err(UsageError::NoArguments);
    }
    let first = args[1].as_str();
    assert(views_of(args@)[1] == first@);
    if str_eq(first, "--help") || str_eq(first, "-h") {
        Ok(Invocation::Help)
    } else if str_eq(first, "setup") {
        Ok(Invocation::Setup)
    } else if str_eq(first, "eval") {
        if n <= 2 {
            Err(UsageError::EvalWithoutSource)
        } else {
            assert(views_of(args@)[2] == args@[2]@);
            Ok(Invocation::Eval(args[2].clone()))
        }
    } else if str_eq(first, "run") {
        if n >= 3 {
            assert(views_of(args@)[2] == args@[2]@);
            if ends_with(args[2].as_str(), SCRIPT_EXTENSION) {
                return Ok(Invocation::RunPath(args[2].clone()));
            }
        }
        Ok(Invocation::RunWorkspace)
    } else {
        Ok(Invocation::RunPath(args[1].clone()))
    }
}

/// Whether the command line asks for panics to be shown as they come.
pub fn debug_requested(args: &Vec<String>) -> (yes: bool)
    ensures
        yes == wants_debug(views_of(args@)),
{
    if args.len() == 3 {
        assert(views_of(args@)[2] == args@[2]@);
        str_eq(args[2].as_str(), "--debug")
    } else {
        false
    }
}

/// The entry file of the workspace, given what `src/init.luau`, `src` and
/// `src/main.luau` name on disk.
pub fn find_entry_path(init: PathKind, src: PathKind, main: PathKind) -> (out: Option<String>)
    ensures
        match workspace_entry(init, src, main) {
            Some(p) => out matches Some(s) && s@ == p,
            None => out is None,
        },
{
    if init == PathKind::File {
        Some(String::from_str(WORKSPACE_INIT))
    } else if src == PathKind::Directory && main == PathKind::File {
        Some(String::from_str(WORKSPACE_MAIN))
    } else {
        None
    }
}

/// The file to read for the entry path `path`, given what the path names on
/// disk and what the entry file inside it would name.
pub fn entry_file_for(path: &str, kind: PathKind, entry: PathKind) -> (out: Result<
    String,
    EntryError,
>)
    ensures
        match entry_file(path@, kind, entry) {
            Ok(p) => out matches Ok(s) && s@ == p,
            Err(e) => out == Err::<String, EntryError>(e),
        },
{
    match kind {
        PathKind::Missing => Err(EntryError::NotFound),
        PathKind::File => if ends_with(path, SCRIPT_EXTENSION) {
            Ok(String::from_str(path))
        } else {
            Err(EntryError::NotAScript)
        },
        PathKind::Directory => if entry == PathKind::File {
            Ok(child_path(path, ENTRY_FILE))
        } else {
            Err(EntryError::DirectoryWithoutEntry)
        },
    }
}

/// Takes the interpreter line off a script.
pub fn strip_shebang(source: &str) -> (out: String)
    ensures
        out@ == without_shebang(source@),
{
    let chars = to_chars(source);
    let marker = to_chars("#!");
    if !chars_start_with(&chars, &marker) {
        return String::from_str(source);
    }
    let end = find_char(&chars, '\n');
    if end >= chars.len() {
        return String::from_str(source);
    }
    let mut rest: Vec<char> = Vec::new();
    let mut i: usize = end + 1;
    while i < chars.len()
        invariant
            end + 1 <= i <= chars.len(),
            rest@ == chars@.subrange(end + 1, i as int),
        decreases chars.len() - i,
    {
        rest.push(chars[i]);
        i += 1;
        assert(rest@ =~= chars@.subrange(end + 1, i as int));
    }
    assert(rest@ =~= chars@.skip(end + 1));
    from_chars(&rest)
}

/// The exit code of a run: zero when it ended without an uncaught error.
pub fn exit_status(failed: bool) -> (code: i32)
    ensures
        code == exit_code(failed),
        code == 0 <==> !failed,
{
    if failed {
        EXIT_FAILURE
    } else {
        EXIT_SUCCESS
    }
}

/// The message of a setup that could not find out the working directory.
pub open spec fn setup_message(kind: IoFailure, detail: Seq<char>) -> Seq<char> {
    match kind {
        IoFailure::NotFound =>
            "seal setup - your current directory does not exist (try reloading your terminal/editor?)"@,
        IoFailure::PermissionDenied =>
            "seal setup - insufficient permissions to access your current directory"@,
        IoFailure::Other => "seal setup - error getting your current directory: "@ + detail,
    }
}

/// The message of a setup that could not find out the working directory.
pub fn seal_setup(kind: IoFailure, detail: &str) -> (out: String)
    ensures
        out@ == setup_message(kind, detail@),
{
    match kind {
        IoFailure::NotFound => String::from_str(
            "seal setup - your current directory does not exist (try reloading your terminal/editor?)",
        ),
        IoFailure::PermissionDenied => String::from_str(
            "seal setup - insufficient permissions to access your current directory",
        ),
        IoFailure::Other => {
            let mut out = String::from_str("seal setup - error getting your current directory: ");
            out.append(detail);
            out
        },
    }
}

} // verus!
