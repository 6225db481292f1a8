//! What the wait status of a shell command means.

use vstd::prelude::*;

verus! {

/// How a shell command ended.
#[derive(Clone, Copy, Debug, PartialEq, Eq, Structural)]
pub struct ShellStatus {
    pub ok: bool,
    pub status_code: i32,
}

/// `libc::WIFEXITED`: whether a wait status reports a normal exit, which is
/// the case when its low seven bits are zero.
#[verifier::external_body]
fn exited_normally(status: i32) -> (yes: bool)
    ensures
        yes == ((status & 0x7f) == 0),
{
    libc::WIFEXITED(status)
}

/// `libc::WEXITSTATUS`: the exit code in a wait status, which is its second
/// byte.
#[verifier::external_body]
fn exit_code_in(status: i32) -> (code: i32)
    ensures
        code == (status >> 8) & 0xff,
{
    libc::WEXITSTATUS(status)
}

/// How a command ended, given the status that the system reported, whether
/// that status is a normal exit, and the exit code in it. A command that
/// could not be run, or that did not exit normally, counts as failed with
/// code 1; a command is fine when it exited with code 0.
pub open spec fn status_of(status: i32, exited: bool, code: i32) -> ShellStatus {
    if status == -1 {
        ShellStatus { ok: false, status_code: 1 }
    } else if exited {
        ShellStatus { ok: code == 0, status_code: code }
    } else {
        ShellStatus { ok: false, status_code: 1 }
    }
}

/// How a command ended, given the parts of its wait status.
pub fn shell_status(status: i32, exited: bool, code: i32) -> (out: ShellStatus)
    ensures
        out == status_of(status, exited, code),
{
    if status == -1 {
        ShellStatus { ok: false, status_code: 1 }
    } else if exited {
        ShellStatus { ok: code == 0, status_code: code }
    } else {
        ShellStatus { ok: false, status_code: 1 }
    }
}

/// How a command ended, given the wait status that the system reported.
pub fn shellexec(status: i32) -> (out: ShellStatus)
    ensures
        out == status_of(status, (status & 0x7f) == 0, (status >> 8) & 0xff),
{
    shell_status(status, exited_normally(status), exit_code_in(status))
}

} // verus!
