//! The decisions of the process capability: which options a run accepts and
//! which command line they stand for. Starting the process is the host's.

use vstd::prelude::*;
use crate::files::IntegerArg;
use crate::text::{join_strings, joined_by, str_eq, trim, trimmed, views_of};
use crate::value::ValueKind;

verus! {

/// What to run: a program with its arguments, directly or through a shell.
#[derive(Clone, Debug, PartialEq, Eq)]
pub struct RunOptions {
    pub program: String,
    pub args: Vec<String>,
    pub shell: Option<String>,
}

/// `RunOptions` over sequences of characters.
pub struct RunOptionsView {
    pub program: Seq<char>,
    pub args: Seq<Seq<char>>,
    pub shell: Option<Seq<char>>,
}

impl View for RunOptions {
    type V = RunOptionsView;

    open spec fn view(&self) -> RunOptionsView {
        RunOptionsView {
            program: self.program@,
            args: views_of(self.args@),
            shell: match self.shell {
                Some(s) => Some(s@),
                None => None,
            },
        }
    }
}

/// The program to start and the arguments to hand it.
#[derive(Clone, Debug, PartialEq, Eq)]
pub struct CommandLine {
    pub program: String,
    pub args: Vec<String>,
}

impl View for CommandLine {
    type V = (Seq<char>, Seq<Seq<char>>);

    open spec fn view(&self) -> (Seq<char>, Seq<Seq<char>>) {
        (self.program@, views_of(self.args@))
    }
}

/// Why a table of run options was refused.
#[derive(Clone, Copy, Debug, PartialEq, Eq, Structural)]
pub enum OptionsError {
    /// The options are no table.
    NotATable(ValueKind),
    /// No program is named.
    ProgramMissing,
    /// The program is no text.
    ProgramNotText(ValueKind),
    /// The arguments are neither a list nor nil.
    ArgsNotAList(ValueKind),
    /// The shell is neither text nor nil.
    ShellNotText(ValueKind),
}

/// The flag by which a shell takes a command: `-Command` for PowerShell
/// under either of its names, `-c` for every other shell.
pub open spec fn command_flag(shell: Seq<char>) -> Seq<char> {
    if shell == "pwsh"@ || shell == "powershell"@ {
        "-Command"@
    } else {
        "-c"@
    }
}

/// The command line that the options stand for. Through a shell, the shell
/// is started with its command flag, the program, and the arguments joined
/// by spaces into one; without one, the program is started with its
/// arguments.
pub open spec fn command_of(options: RunOptionsView) -> (Seq<char>, Seq<Seq<char>>) {
    match options.shell {
        Some(shell) => (
            shell,
            seq![command_flag(shell), options.program, joined_by(options.args, " "@)],
        ),
        None => (options.program, options.args),
    }
}

/// Each string without the white space at its ends.
pub open spec fn all_trimmed(args: Seq<Seq<char>>) -> Seq<Seq<char>> {
    Seq::new(args.len(), |i: int| trimmed(args[i]))
}

/// The options that a table stands for, given the kind of each field and
/// what it holds. The program must be text; absent arguments are none,
/// given ones are trimmed; an absent shell is none.
pub open spec fn options_of(
    program_kind: ValueKind,
    program: Seq<char>,
    args_kind: ValueKind,
    args: Seq<Seq<char>>,
    shell_kind: ValueKind,
    shell: Seq<char>,
) -> Result<RunOptionsView, OptionsError> {
    if program_kind == ValueKind::Nil {
        Err(OptionsError::ProgramMissing)
    } else if program_kind != ValueKind::Text {
        Err(OptionsError::ProgramNotText(program_kind))
    } else if args_kind != ValueKind::Table && args_kind != ValueKind::Nil {
        Err(OptionsError::ArgsNotAList(args_kind))
    } else if shell_kind != ValueKind::Text && shell_kind != ValueKind::Nil {
        Err(OptionsError::ShellNotText(shell_kind))
    } else {
        Ok(
            RunOptionsView {
                program,
                args: if args_kind == ValueKind::Table {
                    all_trimmed(args)
                } else {
                    Seq::empty()
                },
                shell: if shell_kind == ValueKind::Text {
                    Some(shell)
                } else {
                    None
                },
            },
        )
    }
}

impl RunOptions {
    /// Options as given.
    pub fn new(program: String, args: Vec<String>, shell: Option<String>) -> (out: Self)
        ensures
            out.program == program,
            out.args == args,
            out.shell == shell,
    {
        RunOptions { program, args, shell }
    }

    /// The options that a table stands for, given the kind of each field and
    /// what it holds.
    pub fn from_table(
        program_kind: ValueKind,
        program: String,
        args_kind: ValueKind,
        args: Vec<String>,
        shell_kind: ValueKind,
        shell: String,
    ) -> (out: Result<Self, OptionsError>)
        ensures
            match options_of(
                program_kind,
                program@,
                args_kind,
                views_of(args@),
                shell_kind,
                shell@,
            ) {
                Ok(v) => out matches Ok(o) && o@ == v,
                Err(e) => out == Err::<RunOptions, OptionsError>(e),
            },
    {
        match program_kind {
            ValueKind::Nil => {
                return Err(OptionsError::ProgramMissing);
            },
            ValueKind::Text => {},
            _ => {
                return Err(OptionsError::ProgramNotText(program_kind));
            },
        }
        let take_args = match args_kind {
            ValueKind::Table => true,
            ValueKind::Nil => false,
            _ => {
                return Err(OptionsError::ArgsNotAList(args_kind));
            },
        };
        let take_shell = match shell_kind {
            ValueKind::Text => true,
            ValueKind::Nil => false,
            _ => {
                return Err(OptionsError::ShellNotText(shell_kind));
            },
        };
        let mut cut: Vec<String> = Vec::new();
        if take_args {
            let mut i: usize = 0;
            while i < args.len()
                invariant
                    i <= args.len(),
                    cut.len() == i,
                    forall|j: int| 0 <= j < i ==> (#[trigger] cut@[j])@ == trimmed(args@[j]@),
                decreases args.len() - i,
            {
                cut.push(String::from_str(trim(args[i].as_str())));
                i += 1;
            }
            assert(views_of(cut@) =~= all_trimmed(views_of(args@)));
        } else {
            assert(views_of(cut@) =~= Seq::<Seq<char>>::empty());
        }
        Ok(
            RunOptions {
                program,
                args: cut,
                shell: if take_shell {
                    Some(shell)
                } else {
                    None
                },
            },
        )
    }
}

/// Checks that the options of a run are a table.
pub fn check_run_options(kind: ValueKind) -> (out: Result<(), OptionsError>)
    ensures
        out == if kind == ValueKind::Table {
            Ok::<(), OptionsError>(())
        } else {
            Err::<(), OptionsError>(OptionsError::NotATable(kind))
        },
{
    match kind {
        ValueKind::Table => Ok(()),
        _ => Err(OptionsError::NotATable(kind)),
    }
}

/// The command line that the options stand for.
pub fn process_run(options: RunOptions) -> (out: CommandLine)
    ensures
        out@ == command_of(options@),
{
    let ghost v = options@;
    match options.shell {
        Some(shell) => {
            let flag = if str_eq(shell.as_str(), "pwsh") || str_eq(shell.as_str(), "powershell") {
                String::from_str("-Command")
            } else {
                String::from_str("-c")
            };
            let joined = join_strings(&options.args, " ");
            let mut args: Vec<String> = Vec::new();
            args.push(flag);
            args.push(options.program);
            args.push(joined);
            assert(views_of(args@) =~= seq![command_flag(shell@), v.program, joined_by(v.args, " "@)]);
            CommandLine { program: shell, args }
        },
        None => CommandLine { program: options.program, args: options.args },
    }
}

/// The code that a script asks the process to end with: the whole number it
/// gave, or zero when it gave none or nil. Anything else is refused, a
/// floating-point number too.
pub fn exit(code: IntegerArg) -> (out: Result<i32, ValueKind>)
    ensures
        out == match code {
            IntegerArg::Value(n) => Ok::<i32, ValueKind>(n),
            IntegerArg::Missing => Ok::<i32, ValueKind>(0),
            IntegerArg::Nil => Ok::<i32, ValueKind>(0),
            IntegerArg::Float { .. } => Err::<i32, ValueKind>(ValueKind::Number),
            IntegerArg::Wrong(kind) => Err::<i32, ValueKind>(kind),
        },
{
    match code {
        IntegerArg::Value(n) => Ok(n),
        IntegerArg::Missing => Ok(0),
        IntegerArg::Nil => Ok(0),
        IntegerArg::Float { .. } => Err(ValueKind::Number),
        IntegerArg::Wrong(kind) => Err(kind),
    }
}

/// What is done with the exit callback when the process is about to end.
#[derive(Clone, Copy, Debug, PartialEq, Eq, Structural)]
pub enum ExitCallback {
    /// Call it with the exit code.
    Call,
    /// None was set.
    Absent,
}

/// Checks that what a script sets as its exit callback is a function.
pub fn set_exit_callback(callback: Option<ValueKind>) -> (out: Result<(), Option<ValueKind>>)
    ensures
        out == match callback {
            Some(ValueKind::Function) => Ok::<(), Option<ValueKind>>(()),
            other => Err::<(), Option<ValueKind>>(other),
        },
{
    match callback {
        Some(ValueKind::Function) => Ok(()),
        other => Err(other),
    }
}

/// What is done with what the exit callback's place holds: a function is
/// called, nothing is skipped, and anything else is refused.
pub fn handle_exit_callback(stored: ValueKind) -> (out: Result<ExitCallback, ValueKind>)
    ensures
        out == match stored {
            ValueKind::Function => Ok::<ExitCallback, ValueKind>(ExitCallback::Call),
            ValueKind::Nil => Ok::<ExitCallback, ValueKind>(ExitCallback::Absent),
            other => Err::<ExitCallback, ValueKind>(other),
        },
{
    match stored {
        ValueKind::Function => Ok(ExitCallback::Call),
        ValueKind::Nil => Ok(ExitCallback::Absent),
        other => Err(other),
    }
}

/// The options of a command that is handed to the current shell as one
/// line.
pub fn process_shell(command: String, shell_path: String) -> (out: RunOptions)
    ensures
        out@ == (RunOptionsView {
            program: command@,
            args: Seq::<Seq<char>>::empty(),
            shell: Some(shell_path@),
        }),
{
    let out = RunOptions { program: command, args: Vec::new(), shell: Some(shell_path) };
    assert(views_of(out.args@) =~= Seq::<Seq<char>>::empty());
    out
}

/// Number of bytes that a read from a child's stream takes when the script
/// names none.
pub const DEFAULT_READ_SIZE: usize = 32;

/// Number of bytes that a read from a child's stream takes: the number that
/// the script gave, which must not be negative, or 32 when it gave none.
pub fn read_size(size: IntegerArg) -> (out: Result<usize, ValueKind>)
    ensures
        out == match size {
            IntegerArg::Value(n) => if n >= 0 {
                Ok::<usize, ValueKind>(n as usize)
            } else {
                Err::<usize, ValueKind>(ValueKind::Integer)
            },
            IntegerArg::Float { .. } => Err::<usize, ValueKind>(ValueKind::Number),
            IntegerArg::Wrong(ValueKind::Number) => Err::<usize, ValueKind>(ValueKind::Number),
            _ => Ok::<usize, ValueKind>(DEFAULT_READ_SIZE),
        },
{
    match size {
        IntegerArg::Value(n) => if n >= 0 {
            Ok(n as usize)
        } else {
            Err(ValueKind::Integer)
        },
        IntegerArg::Float { .. } => Err(ValueKind::Number),
        IntegerArg::Wrong(ValueKind::Number) => Err(ValueKind::Number),
        _ => Ok(DEFAULT_READ_SIZE),
    }
}

/// How a run ended: whether the program reported success, and what it wrote
/// to its two streams.
#[derive(Clone, Debug, PartialEq, Eq)]
pub struct RunResult {
    pub ok: bool,
    pub stdout: String,
    pub stderr: String,
}

/// What a run that succeeded hands out as its output: what the program
/// wrote to its standard output. A run that failed has none.
pub open spec fn output_of(result: RunResult) -> Option<String> {
    if result.ok {
        Some(result.stdout)
    } else {
        None
    }
}

/// What a run that failed hands out as its error: what the program wrote to
/// its standard error. A run that succeeded has none.
pub open spec fn error_of(result: RunResult) -> Option<String> {
    if result.ok {
        None
    } else {
        Some(result.stderr)
    }
}

/// What unwrapping a run gives: the standard output of a run that
/// succeeded, whatever default was offered; the default of a run that
/// failed, and nothing where none was offered.
pub open spec fn unwrapped(result: RunResult, default: Option<String>) -> Option<String> {
    if result.ok {
        Some(result.stdout)
    } else {
        default
    }
}

/// The result of a run, given the exit status of the program and what it
/// wrote.
pub fn run_result(success: bool, stdout: String, stderr: String) -> (out: RunResult)
    ensures
        out.ok == success,
        out.stdout == stdout,
        out.stderr == stderr,
{
    RunResult { ok: success, stdout, stderr }
}

impl RunResult {
    /// The output of a run that succeeded.
    pub fn out(&self) -> (out: Option<String>)
        ensures
            out == output_of(*self),
    {
        if self.ok {
            Some(self.stdout.clone())
        } else {
            None
        }
    }

    /// The error of a run that failed.
    pub fn err(&self) -> (out: Option<String>)
        ensures
            out == error_of(*self),
    {
        if self.ok {
            None
        } else {
            Some(self.stderr.clone())
        }
    }
}

/// Unwraps a run: the standard output of a run that succeeded; for a run
/// that failed the default, and nothing where none was offered, which the
/// host raises as an error.
pub fn run_unwrap(result: &RunResult, default: Option<String>) -> (out: Option<String>)
    ensures
        out == unwrapped(*result, default),
{
    if result.ok {
        Some(result.stdout.clone())
    } else {
        default
    }
}

} // verus!
