//! The decisions of the environment capability: how the operating system is
//! named, how the command line is split, and which shell is the current
//! one. Reading the environment is the host's.

use vstd::prelude::*;
use crate::text::{from_chars, str_eq, to_chars, trim, trimmed, views_of};

verus! {

/// An ASCII lower-case letter as an upper-case one; any other character as
/// it is.
pub open spec fn upper(c: char) -> char {
    if 'a' <= c <= 'z' {
        ((c as u8) - 32) as char
    } else {
        c
    }
}

/// `name` with its first character in upper case.
pub open spec fn capitalized(name: Seq<char>) -> Seq<char> {
    if name.len() == 0 {
        name
    } else {
        seq![upper(name[0])] + name.skip(1)
    }
}

/// The name of an operating system as scripts see it: a few systems have a
/// spelling of their own, any other is capitalized.
pub open spec fn os_name(os: Seq<char>) -> Seq<char> {
    if os == "linux"@ {
        "Linux"@
    } else if os == "windows"@ {
        "Windows"@
    } else if os == "android"@ {
        "Android"@
    } else if os == "macos"@ {
        "MacOS"@
    } else {
        capitalized(os)
    }
}

/// The name of an operating system as scripts see it.
pub fn format_os(os: &str) -> (out: String)
    ensures
        out@ == os_name(os@),
{
    if str_eq(os, "linux") {
        String::from_str("Linux")
    } else if str_eq(os, "windows") {
        String::from_str("Windows")
    } else if str_eq(os, "android") {
        String::from_str("Android")
    } else if str_eq(os, "macos") {
        String::from_str("MacOS")
    } else {
        let chars = to_chars(os);
        if chars.len() == 0 {
            return String::new();
        }
        let mut out: Vec<char> = Vec::new();
        let first = chars[0];
        if 'a' <= first && first <= 'z' {
            out.push(((first as u8) - 32) as char);
        } else {
            out.push(first);
        }
        let mut i: usize = 1;
        while i < chars.len()
            invariant
                1 <= i <= chars.len(),
                out@ == seq![upper(chars@[0])] + chars@.subrange(1, i as int),
            decreases chars.len() - i,
        {
            out.push(chars[i]);
            i += 1;
            assert(out@ =~= seq![upper(chars@[0])] + chars@.subrange(1, i as int));
        }
        assert(chars@.subrange(1, chars.len() as int) =~= chars@.skip(1));
        from_chars(&out)
    }
}

/// The command line as scripts see it: the executable, the script, and the
/// arguments that follow the script.
#[derive(Clone, Debug, PartialEq, Eq)]
pub struct Arguments {
    pub executable_path: String,
    pub script_path: String,
    pub args: Vec<String>,
}

/// The executable, the script and the script's own arguments in `args`;
/// what is not given is empty.
pub open spec fn split_of(args: Seq<Seq<char>>) -> (Seq<char>, Seq<char>, Seq<Seq<char>>) {
    (
        if args.len() > 0 {
            args[0]
        } else {
            Seq::empty()
        },
        if args.len() > 1 {
            args[1]
        } else {
            Seq::empty()
        },
        if args.len() > 2 {
            args.skip(2)
        } else {
            Seq::empty()
        },
    )
}

/// Splits the command line into the executable, the script and the script's
/// own arguments.
pub fn split_arguments(args: &Vec<String>) -> (out: Arguments)
    ensures
        (out.executable_path@, out.script_path@, views_of(out.args@)) == split_of(
            views_of(args@),
        ),
{
    let mut executable_path = String::new();
    let mut script_path = String::new();
    let mut rest: Vec<String> = Vec::new();
    let mut i: usize = 0;
    while i < args.len()
        invariant
            i <= args.len(),
            executable_path@ == (if i > 0 {
                args@[0]@
            } else {
                Seq::<char>::empty()
            }),
            script_path@ == (if i > 1 {
                args@[1]@
            } else {
                Seq::<char>::empty()
            }),
            rest.len() == (if i > 2 {
                i - 2
            } else {
                0
            }),
            forall|j: int| 0 <= j < rest.len() ==> (#[trigger] rest@[j])@ == args@[j + 2]@,
        decreases args.len() - i,
    {
        if i == 0 {
            executable_path = args[i].clone();
        } else if i == 1 {
            script_path = args[i].clone();
        } else {
            rest.push(args[i].clone());
        }
        i += 1;
    }
    proof {
        let v = views_of(args@);
        if args.len() > 2 {
            assert(views_of(rest@) =~= v.skip(2));
        } else {
            assert(views_of(rest@) =~= Seq::<Seq<char>>::empty());
        }
    }
    Arguments { executable_path, script_path, args: rest }
}

/// The path of the current shell: the `SHELL` variable when it is set, else
/// what a search for `sh` printed, without the white space around it, else
/// nothing.
pub open spec fn shell_of(variable: Option<Seq<char>>, found: Option<Seq<char>>) -> Seq<char> {
    match variable {
        Some(path) => path,
        None => match found {
            Some(printed) => trimmed(printed),
            None => Seq::empty(),
        },
    }
}

/// The path of the current shell, given the value of the `SHELL` variable
/// and what a successful search for `sh` printed.
pub fn get_current_shell(variable: Option<String>, found: Option<String>) -> (out: String)
    ensures
        out@ == shell_of(
            match variable {
                Some(s) => Some(s@),
                None => None,
            },
            match found {
                Some(s) => Some(s@),
                None => None,
            },
        ),
{
    match variable {
        Some(path) => path,
        None => match found {
            Some(printed) => String::from_str(trim(printed.as_str())),
            None => String::new(),
        },
    }
}

} // verus!
