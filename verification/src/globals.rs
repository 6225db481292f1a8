//! What every script finds in its global scope, and what the engine's debug
//! names say about the script that is running.

use vstd::prelude::*;
use crate::path::{has_file_name, parent_dir, parent_of};
use crate::text::{join_pair, to_chars};

verus! {

/// Number of names that the runtime puts into the global scope.
pub const GLOBAL_COUNT: usize = 9;

/// `text` as Rust's `Debug` writes a string: in double quotes, with the
/// characters that need it escaped.
pub uninterp spec fn quoted(text: Seq<char>) -> Seq<char>;

/// `format!("{:?}", ..)` on a string: the string in double quotes, with the
/// characters that need it escaped.
#[verifier::external_body]
pub(crate) fn quote(text: &str) -> (out: String)
    ensures
        out@ == quoted(text@),
{
    format!("{:?}", text)
}

/// Global name `i`; past the end, the last one.
pub open spec fn global_name(i: int) -> Seq<char> {
    if i == 0 {
        "require"@
    } else if i == 1 {
        "error"@
    } else if i == 2 {
        "p"@
    } else if i == 3 {
        "pp"@
    } else if i == 4 {
        "print"@
    } else if i == 5 {
        "warn"@
    } else if i == 6 {
        "_VERSION"@
    } else if i == 7 {
        "_G"@
    } else {
        "_REQUIRE_CACHE"@
    }
}

/// The names that the runtime puts into the global scope of every
/// instance, in the order in which they are set.
pub fn set_globals() -> (out: Vec<&'static str>)
    ensures
        out.len() == GLOBAL_COUNT,
        forall|i: int| 0 <= i < GLOBAL_COUNT ==> (#[trigger] out@[i])@ == global_name(i),
{
    let mut out: Vec<&'static str> = Vec::new();
    out.push("require");
    out.push("error");
    out.push("p");
    out.push("pp");
    out.push("print");
    out.push("warn");
    out.push("_VERSION");
    out.push("_G");
    out.push("_REQUIRE_CACHE");
    out
}

/// The version that scripts read: the runtime's own, then the engine's.
pub open spec fn version_text(runtime: Seq<char>, engine: Seq<char>) -> Seq<char> {
    "seal "@ + runtime + " | "@ + engine
}

/// The version that scripts read.
pub fn version(runtime: &str, engine: &str) -> (out: String)
    ensures
        out@ == version_text(runtime@, engine@),
{
    let mut out = String::from_str("seal ");
    out.append(runtime);
    out.append(" | ");
    out.append(engine);
    out
}

/// The message of an error that a script raised with `error`.
pub open spec fn error_text(message: Seq<char>) -> Seq<char> {
    "message: "@ + quoted(message)
}

/// The message of an error that a script raised with `error`: the value's
/// text in quotes behind a fixed heading.
pub fn error(message: &str) -> (out: String)
    ensures
        out@ == error_text(message@),
{
    let q = quote(message);
    join_pair("message: ", q.as_str())
}

/// The path inside the debug name of a chunk: what stands between the nine
/// characters that open the name and the two that close it. A name too
/// short to hold both holds no path.
pub open spec fn path_in(debug_name: Seq<char>) -> Seq<char> {
    if debug_name.len() >= 11 {
        debug_name.subrange(9, debug_name.len() - 2)
    } else {
        Seq::empty()
    }
}

/// The path of the script that a chunk was loaded from, given the debug
/// name of the chunk.
pub fn get_script_path(debug_name: &str) -> (out: String)
    ensures
        out@ == path_in(debug_name@),
{
    let chars = to_chars(debug_name);
    let n = chars.len();
    if n >= 11 {
        String::from_str(debug_name.substring_char(9, n - 2))
    } else {
        String::new()
    }
}

/// The directory of the script that a chunk was loaded from, given the
/// debug name of the chunk; nothing when the path in it has no parent.
pub fn get_script_parent(debug_name: &str) -> (out: Option<String>)
    ensures
        out is Some <==> has_file_name(path_in(debug_name@)),
        out matches Some(dir) ==> dir@ == parent_dir(path_in(debug_name@)),
{
    let path = get_script_path(debug_name);
    parent_of(path.as_str())
}

} // verus!
