//! Terminal colours as ANSI escape sequences, and the framing of error text.

use vstd::prelude::*;

verus! {

pub const RESET: &'static str = "\x1b[0m";

pub const BLACK: &'static str = "\x1b[30m";

pub const RED: &'static str = "\x1b[31m";

pub const GREEN: &'static str = "\x1b[32m";

pub const YELLOW: &'static str = "\x1b[33m";

pub const BLUE: &'static str = "\x1b[34m";

pub const MAGENTA: &'static str = "\x1b[35m";

pub const CYAN: &'static str = "\x1b[36m";

pub const WHITE: &'static str = "\x1b[37m";

pub const BOLD_RED: &'static str = "\x1b[1;31m";

pub const BOLD_YELLOW: &'static str = "\x1b[1;33m";

pub const BRIGHT_BLACK: &'static str = "\x1b[90m";

pub const BRIGHT_RED: &'static str = "\x1b[91m";

pub const BRIGHT_GREEN: &'static str = "\x1b[92m";

pub const BRIGHT_YELLOW: &'static str = "\x1b[93m";

pub const BRIGHT_BLUE: &'static str = "\x1b[94m";

pub const BRIGHT_MAGENTA: &'static str = "\x1b[95m";

pub const BRIGHT_CYAN: &'static str = "\x1b[96m";

pub const BRIGHT_WHITE: &'static str = "\x1b[97m";

pub const BLACK_BG: &'static str = "\x1b[40m";

pub const RED_BG: &'static str = "\x1b[41m";

pub const GREEN_BG: &'static str = "\x1b[42m";

pub const YELLOW_BG: &'static str = "\x1b[43m";

pub const BLUE_BG: &'static str = "\x1b[44m";

pub const MAGENTA_BG: &'static str = "\x1b[45m";

pub const CYAN_BG: &'static str = "\x1b[46m";

pub const WHITE_BG: &'static str = "\x1b[47m";

pub const BRIGHT_BLACK_BG: &'static str = "\x1b[100m";

pub const BRIGHT_RED_BG: &'static str = "\x1b[101m";

pub const BRIGHT_GREEN_BG: &'static str = "\x1b[102m";

pub const BRIGHT_YELLOW_BG: &'static str = "\x1b[103m";

pub const BRIGHT_BLUE_BG: &'static str = "\x1b[104m";

pub const BRIGHT_MAGENTA_BG: &'static str = "\x1b[105m";

pub const BRIGHT_CYAN_BG: &'static str = "\x1b[106m";

pub const BRIGHT_WHITE_BG: &'static str = "\x1b[107m";

/// `text` written in the colour `color`, with the colour reset after it.
pub open spec fn painted(color: Seq<char>, text: Seq<char>) -> Seq<char> {
    color + text + RESET@
}

/// `text` written in the colour `color`, with the colour reset after it.
pub fn paint(color: &str, text: &str) -> (out: String)
    ensures
        out@ == painted(color@, text@),
{
    let mut out = String::from_str(color);
    out.append(text);
    out.append(RESET);
    out
}

/// An error message as scripts see it: in red, with the colour reset after
/// it.
pub fn wrap_err(message: &str) -> (out: String)
    ensures
        out@ == painted(RED@, message@),
{
    paint(RED, message)
}

} // verus!
