use seal::cli::{
    debug_requested, entry_file_for, exit_status, find_entry_path, parse_arguments, strip_shebang,
    EntryError, Invocation, UsageError,
};
use seal::environment::{format_os, get_current_shell, split_arguments, Arguments};
use seal::process::{check_run_options, exit, process_run, CommandLine, OptionsError, RunOptions};
use seal::files::IntegerArg;
use seal::resolver::PathKind;
use seal::shell::{shell_status, shellexec, ShellStatus};
use seal::testing::{expect_err, testing_try, Expectation, TestingError};
use seal::value::ValueKind;

fn args(list: &[&str]) -> Vec<String> {
    list.iter().map(|s| s.to_string()).collect()
}

#[test]
fn parse_arguments_of_each_command() {
    assert_eq!(parse_arguments(&args(&["seal"])), Err(UsageError::NoArguments));
    assert_eq!(parse_arguments(&args(&[])), Err(UsageError::NoArguments));
    assert_eq!(parse_arguments(&args(&["seal", "--help"])), Ok(Invocation::Help));
    assert_eq!(parse_arguments(&args(&["seal", "-h"])), Ok(Invocation::Help));
    assert_eq!(parse_arguments(&args(&["seal", "setup"])), Ok(Invocation::Setup));
    assert_eq!(parse_arguments(&args(&["seal", "eval"])), Err(UsageError::EvalWithoutSource));
    assert_eq!(
        parse_arguments(&args(&["seal", "eval", "print(1)"])),
        Ok(Invocation::Eval("print(1)".to_string()))
    );
    assert_eq!(parse_arguments(&args(&["seal", "run"])), Ok(Invocation::RunWorkspace));
    assert_eq!(
        parse_arguments(&args(&["seal", "run", "x.luau"])),
        Ok(Invocation::RunPath("x.luau".to_string()))
    );
    assert_eq!(
        parse_arguments(&args(&["seal", "run", "some", "args"])),
        Ok(Invocation::RunWorkspace)
    );
    assert_eq!(
        parse_arguments(&args(&["seal", "main.luau", "a"])),
        Ok(Invocation::RunPath("main.luau".to_string()))
    );
    assert_eq!(
        parse_arguments(&args(&["seal", "project"])),
        Ok(Invocation::RunPath("project".to_string()))
    );
}

#[test]
fn debug_flag_needs_exactly_three_arguments() {
    assert!(debug_requested(&args(&["seal", "main.luau", "--debug"])));
    assert!(!debug_requested(&args(&["seal", "--debug"])));
    assert!(!debug_requested(&args(&["seal", "main.luau", "x", "--debug"])));
    assert!(!debug_requested(&args(&["seal", "main.luau", "-debug"])));
}

#[test]
fn workspace_entry_prefers_init() {
    assert_eq!(
        find_entry_path(PathKind::File, PathKind::Directory, PathKind::File),
        Some("src/init.luau".to_string())
    );
    assert_eq!(
        find_entry_path(PathKind::Missing, PathKind::Directory, PathKind::File),
        Some("src/main.luau".to_string())
    );
    assert_eq!(find_entry_path(PathKind::Missing, PathKind::Directory, PathKind::Missing), None);
    assert_eq!(find_entry_path(PathKind::Directory, PathKind::Missing, PathKind::File), None);
}

#[test]
fn entry_file_of_script_and_directory() {
    assert_eq!(
        entry_file_for("main.luau", PathKind::File, PathKind::Missing),
        Ok("main.luau".to_string())
    );
    assert_eq!(
        entry_file_for("main.lua", PathKind::File, PathKind::Missing),
        Err(EntryError::NotAScript)
    );
    assert_eq!(
        entry_file_for("project", PathKind::Directory, PathKind::File),
        Ok("project/init.luau".to_string())
    );
    assert_eq!(
        entry_file_for(".", PathKind::Directory, PathKind::File),
        Ok("init.luau".to_string())
    );
    assert_eq!(
        entry_file_for("project", PathKind::Directory, PathKind::Missing),
        Err(EntryError::DirectoryWithoutEntry)
    );
    assert_eq!(
        entry_file_for("gone.luau", PathKind::Missing, PathKind::Missing),
        Err(EntryError::NotFound)
    );
}

#[test]
fn shebang_line_is_taken_off() {
    assert_eq!(strip_shebang("#!/usr/bin/env seal\nprint(1)\n"), "print(1)\n");
    assert_eq!(strip_shebang("print(1)\n#!x\n"), "print(1)\n#!x\n");
    assert_eq!(strip_shebang("#!/usr/bin/env seal"), "#!/usr/bin/env seal");
    assert_eq!(strip_shebang("#!\n"), "");
    assert_eq!(strip_shebang(""), "");
    assert_eq!(strip_shebang("# !x\ny"), "# !x\ny");
}

#[test]
fn exit_status_is_zero_only_on_success() {
    assert_eq!(exit_status(false), 0);
    assert_eq!(exit_status(true), 1);
}

#[test]
fn os_names() {
    assert_eq!(format_os("linux"), "Linux");
    assert_eq!(format_os("windows"), "Windows");
    assert_eq!(format_os("android"), "Android");
    assert_eq!(format_os("macos"), "MacOS");
    assert_eq!(format_os("freebsd"), "Freebsd");
    assert_eq!(format_os("iOS"), "IOS");
    assert_eq!(format_os(""), "");
}

#[test]
fn arguments_are_split() {
    assert_eq!(
        split_arguments(&args(&["/bin/seal", "main.luau", "a", "b"])),
        Arguments {
            executable_path: "/bin/seal".to_string(),
            script_path: "main.luau".to_string(),
            args: args(&["a", "b"]),
        }
    );
    assert_eq!(
        split_arguments(&args(&["/bin/seal"])),
        Arguments {
            executable_path: "/bin/seal".to_string(),
            script_path: "".to_string(),
            args: vec![],
        }
    );
    assert_eq!(
        split_arguments(&args(&[])),
        Arguments { executable_path: "".to_string(), script_path: "".to_string(), args: vec![] }
    );
}

#[test]
fn current_shell_prefers_the_variable() {
    assert_eq!(
        get_current_shell(Some("/bin/zsh".to_string()), Some("/bin/sh\n".to_string())),
        "/bin/zsh"
    );
    assert_eq!(get_current_shell(None, Some("  /bin/sh\n".to_string())), "/bin/sh");
    assert_eq!(get_current_shell(None, None), "");
}

#[test]
fn run_options_from_a_table() {
    assert_eq!(
        RunOptions::from_table(
            ValueKind::Text,
            "ls".to_string(),
            ValueKind::Table,
            args(&[" -l ", "\t/tmp\n"]),
            ValueKind::Nil,
            String::new()
        ),
        Ok(RunOptions::new("ls".to_string(), args(&["-l", "/tmp"]), None))
    );
    assert_eq!(
        RunOptions::from_table(
            ValueKind::Text,
            "ls".to_string(),
            ValueKind::Nil,
            args(&["ignored"]),
            ValueKind::Text,
            "bash".to_string()
        ),
        Ok(RunOptions::new("ls".to_string(), vec![], Some("bash".to_string())))
    );
    let refuse = |p: ValueKind, a: ValueKind, s: ValueKind| {
        RunOptions::from_table(p, String::new(), a, vec![], s, String::new())
    };
    assert_eq!(
        refuse(ValueKind::Nil, ValueKind::Nil, ValueKind::Nil),
        Err(OptionsError::ProgramMissing)
    );
    assert_eq!(
        refuse(ValueKind::Integer, ValueKind::Nil, ValueKind::Nil),
        Err(OptionsError::ProgramNotText(ValueKind::Integer))
    );
    assert_eq!(
        refuse(ValueKind::Text, ValueKind::Text, ValueKind::Nil),
        Err(OptionsError::ArgsNotAList(ValueKind::Text))
    );
    assert_eq!(
        refuse(ValueKind::Text, ValueKind::Nil, ValueKind::Boolean),
        Err(OptionsError::ShellNotText(ValueKind::Boolean))
    );
    assert_eq!(check_run_options(ValueKind::Table), Ok(()));
    assert_eq!(check_run_options(ValueKind::Nil), Err(OptionsError::NotATable(ValueKind::Nil)));
}

#[test]
fn command_line_with_and_without_shell() {
    assert_eq!(
        process_run(RunOptions::new("ls".to_string(), args(&["-l", "/tmp"]), None)),
        CommandLine { program: "ls".to_string(), args: args(&["-l", "/tmp"]) }
    );
    assert_eq!(
        process_run(RunOptions::new(
            "ls".to_string(),
            args(&["-l", "/tmp"]),
            Some("bash".to_string())
        )),
        CommandLine { program: "bash".to_string(), args: args(&["-c", "ls", "-l /tmp"]) }
    );
    assert_eq!(
        process_run(RunOptions::new("dir".to_string(), vec![], Some("pwsh".to_string()))),
        CommandLine { program: "pwsh".to_string(), args: args(&["-Command", "dir", ""]) }
    );
    assert_eq!(
        process_run(RunOptions::new("dir".to_string(), args(&["x"]), Some("powershell".to_string()))),
        CommandLine { program: "powershell".to_string(), args: args(&["-Command", "dir", "x"]) }
    );
}

#[test]
fn exit_codes_from_scripts() {
    assert_eq!(exit(IntegerArg::Value(3)), Ok(3));
    assert_eq!(exit(IntegerArg::Missing), Ok(0));
    assert_eq!(exit(IntegerArg::Wrong(ValueKind::Text)), Err(ValueKind::Text));
    assert_eq!(exit(IntegerArg::Nil), Ok(0));
    assert_eq!(exit(IntegerArg::Float { truncated: 3, fraction: false }), Err(ValueKind::Number));
    assert_eq!(exit(IntegerArg::Float { truncated: 3, fraction: true }), Err(ValueKind::Number));
}

#[test]
fn shell_wait_statuses() {
    assert_eq!(shellexec(0), ShellStatus { ok: true, status_code: 0 });
    assert_eq!(shellexec(256), ShellStatus { ok: false, status_code: 1 });
    assert_eq!(shellexec(127 << 8), ShellStatus { ok: false, status_code: 127 });
    assert_eq!(shellexec(-1), ShellStatus { ok: false, status_code: 1 });
    assert_eq!(shellexec(9), ShellStatus { ok: false, status_code: 1 });
    assert_eq!(shell_status(0, true, 0), ShellStatus { ok: true, status_code: 0 });
    assert_eq!(shell_status(512, true, 2), ShellStatus { ok: false, status_code: 2 });
    assert_eq!(shell_status(15, false, 0), ShellStatus { ok: false, status_code: 1 });
}

#[test]
fn testing_accepts_functions_and_patterns() {
    assert_eq!(testing_try(ValueKind::Function), Ok(()));
    assert_eq!(testing_try(ValueKind::Text), Err(TestingError::NotAFunction(ValueKind::Text)));
    assert_eq!(expect_err(Some(ValueKind::Function)), Ok(Expectation::CallHandler));
    assert_eq!(expect_err(Some(ValueKind::Text)), Ok(Expectation::MatchPattern));
    assert_eq!(
        expect_err(Some(ValueKind::Table)),
        Err(TestingError::BadHandler(ValueKind::Table))
    );
    assert_eq!(expect_err(None), Err(TestingError::BadHandler(ValueKind::Boolean)));
}

#[test]
fn white_space_is_cut_by_its_code_points() {
    let every = "\u{9}\u{a}\u{b}\u{c}\u{d} \u{85}\u{a0}\u{1680}\u{2000}\u{2001}\u{2002}\u{2003}\u{2004}\u{2005}\u{2006}\u{2007}\u{2008}\u{2009}\u{200a}\u{2028}\u{2029}\u{202f}\u{205f}\u{3000}";
    assert_eq!(get_current_shell(None, Some(format!("{}sh{}", every, every))), "sh");
    assert_eq!(get_current_shell(None, Some(every.to_string())), "");
    assert_eq!(get_current_shell(None, Some("a \u{3000} b".to_string())), "a \u{3000} b");
    for kept in ["\u{8}", "\u{e}", "\u{1f}", "\u{200b}", "\u{180e}", "\u{2060}", "\u{feff}", "\u{84}", "\u{86}"] {
        let text = format!("{}sh{}", kept, kept);
        assert_eq!(get_current_shell(None, Some(text.clone())), text);
    }
}
