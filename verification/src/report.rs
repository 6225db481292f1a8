//! Error text: the messages of the library's errors, and the rewriting of
//! engine error text into what the user reads. The engine names a chunk by a
//! synthetic label, `[string "..."]`; the user is shown the path of the
//! script instead.

use vstd::prelude::*;
use crate::colors::{BOLD_RED, RED, RESET};
use crate::context::{IoFailure, LoadError, RequireError, RequireFailure};
use crate::resolver::{ResolutionError, ResolutionFailure};
use crate::text::{join_pair, replace_text, text_replaced};
use crate::value::{kind_name, name_of_kind};

verus! {

/// The label that the engine gives a chunk in its error text.
pub const CHUNK_PATTERN: &'static str = "\\[string \"[^\"]+\"\\]";

/// An ANSI colour sequence.
pub const COLOR_PATTERN: &'static str = "\x1b\\[[0-9;]*m";

/// A compiled regular expression of the `regex` crate. Verus sees nothing of
/// what is inside.
#[verifier::external_type_specification]
#[verifier::external_body]
pub struct ExRegex(regex::Regex);

/// Whether `Regex::new` accepts `pattern`.
pub uninterp spec fn compiles(pattern: Seq<char>) -> bool;

/// The pattern that a regular expression was compiled from.
pub uninterp spec fn pattern_of(re: regex::Regex) -> Seq<char>;

/// `text` with every match of `pattern` replaced by `replacement`, taken
/// literally, as `Regex::replace_all` does it.
pub uninterp spec fn replaced_all(pattern: Seq<char>, text: Seq<char>, replacement: Seq<char>)
    -> Seq<char>;

/// Whether `Regex::is_match` finds a match of `pattern` in `text`.
pub uninterp spec fn matched(pattern: Seq<char>, text: Seq<char>) -> bool;

/// `Regex::new`: compiles `pattern`, or gives nothing when the pattern is
/// refused. The contract names the pattern that the result stands for.
#[verifier::external_body]
pub(crate) fn compile(pattern: &str) -> (out: Option<regex::Regex>)
    ensures
        out is Some == compiles(pattern@),
        out matches Some(re) ==> pattern_of(re) == pattern@,
{
    match regex::Regex::new(pattern) {
        Ok(re) => Some(re),
        Err(_) => None,
    }
}

/// `Regex::replace_all` with a `NoExpand` replacement: every match, from
/// left to right and without overlap, gives way to `replacement` as it is
/// written; `$` has no special meaning in it.
#[verifier::external_body]
fn replace_matches(re: &regex::Regex, text: &str, replacement: &str) -> (out: String)
    ensures
        out@ == replaced_all(pattern_of(*re), text@, replacement@),
{
    re.replace_all(text, regex::NoExpand(replacement)).into_owned()
}

/// `Regex::is_match`: whether the pattern matches somewhere in `text`.
#[verifier::external_body]
pub(crate) fn has_match(re: &regex::Regex, text: &str) -> (yes: bool)
    ensures
        yes == matched(pattern_of(*re), text@),
{
    re.is_match(text)
}

/// `text` with the matches of `pattern` replaced by `replacement`; `text`
/// as it is when the pattern does not compile.
pub open spec fn rewritten(pattern: Seq<char>, text: Seq<char>, replacement: Seq<char>) -> Seq<
    char,
> {
    if compiles(pattern) {
        replaced_all(pattern, text, replacement)
    } else {
        text
    }
}

/// `text` with the matches of `pattern` replaced by `replacement`; `text`
/// as it is when the pattern does not compile.
pub fn rewrite(pattern: &str, text: &str, replacement: &str) -> (out: String)
    ensures
        out@ == rewritten(pattern@, text@, replacement@),
{
    match compile(pattern) {
        Some(re) => replace_matches(&re, text, replacement),
        None => String::from_str(text),
    }
}

/// `input` without ANSI colour sequences.
pub fn strip_newlines_and_colors(input: &str) -> (out: String)
    ensures
        out@ == rewritten(COLOR_PATTERN@, input@, Seq::<char>::empty()),
{
    let nothing = String::new();
    rewrite(COLOR_PATTERN, input, nothing.as_str())
}

/// How a chunk is shown to the user: the path of its script, quoted, in
/// square brackets.
pub open spec fn chunk_label(script_path: Seq<char>) -> Seq<char> {
    "[\""@ + script_path + "\"]"@
}

/// How a chunk is shown to the user.
pub fn label_chunk(script_path: &str) -> (out: String)
    ensures
        out@ == chunk_label(script_path@),
{
    let mut out = String::from_str("[\"");
    out.append(script_path);
    out.append("\"]");
    out
}

/// Engine error text with the global error function called by its short
/// name.
pub open spec fn short_names(text: Seq<char>) -> Seq<char> {
    text_replaced(text, "_G.error"@, "error"@)
}

/// Engine error text as the user reads it: every synthetic chunk label
/// gives way to the path of the running script, and the global error
/// function is called by its short name.
pub fn parse_traceback(raw_traceback: &str, current_path: &str) -> (out: String)
    ensures
        out@ == short_names(
            rewritten(CHUNK_PATTERN@, raw_traceback@, chunk_label(current_path@)),
        ),
{
    let label = label_chunk(current_path);
    let relabelled = rewrite(CHUNK_PATTERN, raw_traceback, label.as_str());
    replace_text(relabelled.as_str(), "_G.error", "error")
}

/// The heading that a script's own context note puts before an error.
pub open spec fn context_heading(context: Seq<char>, close: Seq<char>) -> Seq<char> {
    BOLD_RED@ + "[CONTEXT] "@ + context + RESET@ + close + RED@
}

/// The report of an uncaught error at the top level: the message, under the
/// script's context note when it left one.
pub open spec fn top_level_report(message: Seq<char>, context: Option<Seq<char>>) -> Seq<char> {
    match context {
        Some(note) => context_heading(note, ": "@) + message,
        None => message,
    }
}

/// The report of an uncaught error in a spawned instance: the message, under
/// the script's context note when it left one, and the path of the script
/// that spawned the instance.
pub open spec fn child_report(
    message: Seq<char>,
    context: Option<Seq<char>>,
    parent_path: Seq<char>,
) -> Seq<char> {
    match context {
        Some(note) => context_heading(note, Seq::<char>::empty()) + "\n"@ + message
            + "\n THREAD CALLED FROM: "@ + parent_path,
        None => message + "\n"@ + BOLD_RED@ + "THREAD CALLED FROM:"@ + RESET@ + " [\""@
            + parent_path + "\"]"@,
    }
}

/// The heading that a script's own context note puts before an error.
fn head_context(context: &str, close: &str) -> (out: String)
    ensures
        out@ == context_heading(context@, close@),
{
    let mut out = String::from_str(BOLD_RED);
    out.append("[CONTEXT] ");
    out.append(context);
    out.append(RESET);
    out.append(close);
    out.append(RED);
    out
}

/// The report of an uncaught error at the top level.
pub fn report_top_level(message: &str, context: Option<&str>) -> (out: String)
    ensures
        out@ == top_level_report(
            message@,
            match context {
                Some(note) => Some(note@),
                None => None,
            },
        ),
{
    match context {
        Some(note) => {
            let mut out = head_context(note, ": ");
            out.append(message);
            out
        },
        None => String::from_str(message),
    }
}

/// The report of an uncaught error in a spawned instance.
pub fn report_child(message: &str, context: Option<&str>, parent_path: &str) -> (out: String)
    ensures
        out@ == child_report(
            message@,
            match context {
                Some(note) => Some(note@),
                None => None,
            },
            parent_path@,
        ),
{
    match context {
        Some(note) => {
            let empty = String::new();
            let mut out = head_context(note, empty.as_str());
            out.append("\n");
            out.append(message);
            out.append("\n THREAD CALLED FROM: ");
            out.append(parent_path);
            proof {
                assert(context_heading(note@, Seq::<char>::empty()) =~= context_heading(
                    note@,
                    empty@,
                ));
            }
            out
        },
        None => {
            let mut out = String::from_str(message);
            out.append("\n");
            out.append(BOLD_RED);
            out.append("THREAD CALLED FROM:");
            out.append(RESET);
            out.append(" [\"");
            out.append(parent_path);
            out.append("\"]");
            out
        },
    }
}

/// The text that turns down a path which is neither an alias nor relative.
pub const MALFORMED_PATH_MESSAGE: &'static str =
    "Invalid require path: Luau requires must start with a require alias (ex. \"@alias/path.luau\") or relative path (ex. \"./path.luau\").\nNotes:\n  - ending a require with .luau is optional\n  - implicit relative paths (ex. require(\"file.luau\") without ./) are no longer allowed; see: https://github.com/luau-lang/rfcs/pull/56";

/// The message of a resolution error. It names the alias or the path that
/// was not found; a malformed path and a directory without an entry file
/// get a fixed text.
pub open spec fn resolution_message(e: ResolutionFailure) -> Seq<char> {
    match e {
        ResolutionFailure::UnknownCapability(alias) =>
            "program required an unexpected standard library: "@ + alias,
        ResolutionFailure::AliasNotImplemented(alias) =>
            "require: aliases other than the standard library are not implemented yet: "@
                + alias,
        ResolutionFailure::MalformedPath(path) => MALFORMED_PATH_MESSAGE@,
        ResolutionFailure::FileNotFound(path) => "require: path \""@ + path + "\" doesn't exist"@,
        ResolutionFailure::DirectoryMissingEntry(path) =>
            "require: required directory doesn't contain an init.luau"@,
    }
}

/// The message of a resolution error.
pub fn describe_resolution(e: &ResolutionError) -> (out: String)
    ensures
        out@ == resolution_message(e@),
{
    match e {
        ResolutionError::UnknownCapability(alias) => join_pair(
            "program required an unexpected standard library: ",
            alias.as_str(),
        ),
        ResolutionError::AliasNotImplemented(alias) => join_pair(
            "require: aliases other than the standard library are not implemented yet: ",
            alias.as_str(),
        ),
        ResolutionError::MalformedPath(path) => String::from_str(MALFORMED_PATH_MESSAGE),
        ResolutionError::FileNotFound(path) => {
            let mut out = String::from_str("require: path \"");
            out.append(path.as_str());
            out.append("\" doesn't exist");
            out
        },
        ResolutionError::DirectoryMissingEntry(path) => String::from_str(
            "require: required directory doesn't contain an init.luau",
        ),
    }
}

/// What went wrong with a read, in words.
pub open spec fn io_failure_text(kind: IoFailure) -> Seq<char> {
    match kind {
        IoFailure::NotFound => "entity not found"@,
        IoFailure::PermissionDenied => "permission denied"@,
        IoFailure::Other => "other error"@,
    }
}

/// The message of a failed request, but for an evaluation error, whose text
/// is the engine's own.
pub open spec fn require_message<E>(e: RequireFailure<E>) -> Option<Seq<char>> {
    match e {
        RequireFailure::Resolution(r) => Some(resolution_message(r)),
        RequireFailure::Read { kind, path } => Some(
            match kind {
                IoFailure::NotFound => "require: no such file or directory for resolved path "@
                    + path,
                _ => "require: error reading file: "@ + io_failure_text(kind),
            },
        ),
        RequireFailure::Evaluation(_) => None,
        RequireFailure::Cyclic(key) => Some(
            "require: module \""@ + key + "\" requires itself while it is being loaded"@,
        ),
        RequireFailure::OutOfTurn => Some("require: report out of turn"@),
        RequireFailure::NotAPath(kind) => Some(
            "require expected a string path (like \"@std/json\" or \"./relative_file\"), got: "@
                + kind_name(kind),
        ),
    }
}

/// What went wrong with a read, in words.
pub fn describe_io_failure(kind: IoFailure) -> (out: &'static str)
    ensures
        out@ == io_failure_text(kind),
{
    match kind {
        IoFailure::NotFound => "entity not found",
        IoFailure::PermissionDenied => "permission denied",
        IoFailure::Other => "other error",
    }
}

/// The message of a failed request, but for an evaluation error, whose text
/// is the engine's own.
pub fn describe_require<E>(e: &RequireError<E>) -> (out: Option<String>)
    ensures
        match require_message(e@) {
            Some(text) => out matches Some(s) && s@ == text,
            None => out is None,
        },
{
    match e {
        RequireError::Resolution(r) => Some(describe_resolution(r)),
        RequireError::Load(LoadError::ReadError { kind, path }) => match kind {
            IoFailure::NotFound => Some(
                join_pair("require: no such file or directory for resolved path ", path.as_str()),
            ),
            _ => Some(join_pair("require: error reading file: ", describe_io_failure(*kind))),
        },
        RequireError::Load(LoadError::EvaluationError(_)) => None,
        RequireError::Cyclic(key) => {
            let mut out = String::from_str("require: module \"");
            out.append(key.as_str());
            out.append("\" requires itself while it is being loaded");
            Some(out)
        },
        RequireError::OutOfTurn => Some(String::from_str("require: report out of turn")),
        RequireError::NotAPath(kind) => Some(
            join_pair(
                "require expected a string path (like \"@std/json\" or \"./relative_file\"), got: ",
                name_of_kind(*kind),
            ),
        ),
    }
}

} // verus!
