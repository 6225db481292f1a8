use seal::cli::seal_setup;
use seal::testing::{
    try_match, try_ok, try_result, try_unwrap, HandlerUse, TestingError, TryResult,
};
use seal::text::decimal;
use seal::context::IoFailure;
use seal::files::{
    copy_to, file_extension, fs_find_dir, fs_find_file, fs_remove, get_path_from_entry,
    CopyKind, DirectoryRemoval, EntryError, FindError, IntegerArg, RemoveError,
};
use seal::output::{output_clear, output_write, warn, Shown};
use seal::process::{
    handle_exit_callback, process_shell, read_size, run_result, run_unwrap, set_exit_callback,
    ExitCallback, RunOptions, RunResult,
};
use seal::resolver::PathKind;
use seal::value::{FlagArg, ValueKind};

#[test]
fn warning_is_bold_yellow() {
    assert_eq!(warn(&Shown::Text("careful".to_string())), "\x1b[1;33mcareful\x1b[0m");
}

#[test]
fn clear_command_by_system() {
    assert_eq!(output_clear(true), "cls");
    assert_eq!(output_clear(false), "clear");
}

#[test]
fn streams_take_text_and_buffers() {
    assert_eq!(output_write(ValueKind::Text), Ok(()));
    assert_eq!(output_write(ValueKind::Buffer), Ok(()));
    assert_eq!(output_write(ValueKind::Table), Err(ValueKind::Table));
    assert_eq!(output_write(ValueKind::Nil), Err(ValueKind::Nil));
}

#[test]
fn exit_callback_must_be_a_function() {
    assert_eq!(set_exit_callback(Some(ValueKind::Function)), Ok(()));
    assert_eq!(set_exit_callback(Some(ValueKind::Text)), Err(Some(ValueKind::Text)));
    assert_eq!(set_exit_callback(None), Err(None));
    assert_eq!(handle_exit_callback(ValueKind::Function), Ok(ExitCallback::Call));
    assert_eq!(handle_exit_callback(ValueKind::Nil), Ok(ExitCallback::Absent));
    assert_eq!(handle_exit_callback(ValueKind::Integer), Err(ValueKind::Integer));
}

#[test]
fn shell_command_is_one_line() {
    assert_eq!(
        process_shell("ls -l | wc".to_string(), "/bin/sh".to_string()),
        RunOptions::new("ls -l | wc".to_string(), vec![], Some("/bin/sh".to_string()))
    );
}

#[test]
fn stream_read_sizes() {
    assert_eq!(read_size(IntegerArg::Value(8)), Ok(8));
    assert_eq!(read_size(IntegerArg::Value(0)), Ok(0));
    assert_eq!(read_size(IntegerArg::Value(-1)), Err(ValueKind::Integer));
    assert_eq!(read_size(IntegerArg::Wrong(ValueKind::Number)), Err(ValueKind::Number));
    assert_eq!(read_size(IntegerArg::Float { truncated: 8, fraction: false }), Err(ValueKind::Number));
    assert_eq!(read_size(IntegerArg::Float { truncated: 8, fraction: true }), Err(ValueKind::Number));
    assert_eq!(read_size(IntegerArg::Missing), Ok(32));
    assert_eq!(read_size(IntegerArg::Nil), Ok(32));
    assert_eq!(read_size(IntegerArg::Wrong(ValueKind::Text)), Ok(32));
}

#[test]
fn copies_by_kind() {
    assert_eq!(copy_to(PathKind::File), Some(CopyKind::File));
    assert_eq!(copy_to(PathKind::Directory), Some(CopyKind::Tree));
    assert_eq!(copy_to(PathKind::Missing), None);
}

#[test]
fn entry_methods_need_the_entry() {
    assert_eq!(get_path_from_entry(ValueKind::Table, ValueKind::Text), Ok(()));
    assert_eq!(
        get_path_from_entry(ValueKind::Text, ValueKind::Text),
        Err(EntryError::NotAMethodCall(ValueKind::Text))
    );
    assert_eq!(
        get_path_from_entry(ValueKind::Table, ValueKind::Nil),
        Err(EntryError::PathNotText(ValueKind::Nil))
    );
}

#[test]
fn setup_messages() {
    assert_eq!(
        seal_setup(IoFailure::NotFound, "x"),
        "seal setup - your current directory does not exist (try reloading your terminal/editor?)"
    );
    assert_eq!(
        seal_setup(IoFailure::PermissionDenied, "x"),
        "seal setup - insufficient permissions to access your current directory"
    );
    assert_eq!(
        seal_setup(IoFailure::Other, "interrupted"),
        "seal setup - error getting your current directory: interrupted"
    );
}

#[test]
fn directory_removal_rules() {
    assert_eq!(fs_remove("tmp/x", FlagArg::Nil, FlagArg::Nil, false), Ok(DirectoryRemoval::Tree));
    assert_eq!(
        fs_remove("tmp/x", FlagArg::Value(false), FlagArg::Nil, true),
        Ok(DirectoryRemoval::Empty)
    );
    assert_eq!(
        fs_remove("tmp/x", FlagArg::Value(false), FlagArg::Nil, false),
        Ok(DirectoryRemoval::Nothing)
    );
    assert_eq!(
        fs_remove("tmp/x", FlagArg::Value(true), FlagArg::Nil, false),
        Ok(DirectoryRemoval::Tree)
    );
    assert_eq!(
        fs_remove("/tmp/x", FlagArg::Value(true), FlagArg::Value(true), false),
        Ok(DirectoryRemoval::Tree)
    );
    assert_eq!(
        fs_remove("/tmp/x", FlagArg::Value(true), FlagArg::Value(false), false),
        Err(RemoveError::AbsolutePathRefused)
    );
    assert_eq!(
        fs_remove("/tmp/x", FlagArg::Value(true), FlagArg::Nil, false),
        Err(RemoveError::OverrideNotAFlag(ValueKind::Nil))
    );
    assert_eq!(
        fs_remove("/tmp/x", FlagArg::Value(true), FlagArg::Wrong(ValueKind::Text), false),
        Err(RemoveError::OverrideNotAFlag(ValueKind::Text))
    );
    assert_eq!(
        fs_remove("/tmp/x", FlagArg::Wrong(ValueKind::Text), FlagArg::Value(true), true),
        Err(RemoveError::ForceNotAFlag(ValueKind::Text))
    );
    assert_eq!(fs_remove("/tmp/x", FlagArg::Nil, FlagArg::Nil, false), Ok(DirectoryRemoval::Tree));
}

#[test]
fn file_extensions() {
    assert_eq!(file_extension("src/main.luau"), "luau");
    assert_eq!(file_extension("archive.tar.gz"), "gz");
    assert_eq!(file_extension("README"), "");
    assert_eq!(file_extension("trailing."), "");
    assert_eq!(file_extension("a.b-c"), "");
    assert_eq!(file_extension(".hidden"), "hidden");
    assert_eq!(file_extension("dir.d/file"), "");
    assert_eq!(file_extension("x.mp3"), "mp3");
    assert_eq!(file_extension(""), "");
    assert_eq!(file_extension("luau"), "");
}

#[test]
fn searches_for_one_kind_of_entry() {
    assert_eq!(fs_find_file(Ok(PathKind::File)), Ok(true));
    assert_eq!(fs_find_file(Ok(PathKind::Directory)), Err(FindError::WrongKind));
    assert_eq!(fs_find_file(Ok(PathKind::Missing)), Ok(false));
    assert_eq!(fs_find_file(Err(IoFailure::NotFound)), Ok(false));
    assert_eq!(fs_find_file(Err(IoFailure::PermissionDenied)), Err(FindError::Denied));
    assert_eq!(fs_find_file(Err(IoFailure::Other)), Err(FindError::Other));
    assert_eq!(fs_find_dir(Ok(PathKind::Directory)), Ok(true));
    assert_eq!(fs_find_dir(Ok(PathKind::File)), Err(FindError::WrongKind));
    assert_eq!(fs_find_dir(Ok(PathKind::Missing)), Ok(false));
    assert_eq!(fs_find_dir(Err(IoFailure::NotFound)), Ok(false));
    assert_eq!(fs_find_dir(Err(IoFailure::PermissionDenied)), Err(FindError::Denied));
}

#[test]
fn run_results() {
    let fine = run_result(true, "out text".to_string(), "warnings".to_string());
    assert_eq!(
        fine,
        RunResult { ok: true, stdout: "out text".to_string(), stderr: "warnings".to_string() }
    );
    assert_eq!(fine.out(), Some("out text".to_string()));
    assert_eq!(fine.err(), None);
    assert_eq!(run_unwrap(&fine, None), Some("out text".to_string()));
    assert_eq!(run_unwrap(&fine, Some("default".to_string())), Some("out text".to_string()));
    let failed = run_result(false, "partial".to_string(), "it broke".to_string());
    assert!(!failed.ok);
    assert_eq!(failed.stdout, "partial");
    assert_eq!(failed.out(), None);
    assert_eq!(failed.err(), Some("it broke".to_string()));
    assert_eq!(run_unwrap(&failed, Some("default".to_string())), Some("default".to_string()));
    assert_eq!(run_unwrap(&failed, None), None);
}

#[test]
fn try_results() {
    let returned: TryResult<i32, String> = try_result(Ok(7));
    assert_eq!(returned, TryResult::Returned(7));
    assert!(try_ok(&returned));
    assert_eq!(try_unwrap(returned.clone(), None), Ok(7));
    assert_eq!(try_unwrap(returned, Some(1)), Ok(7));
    let raised: TryResult<i32, String> = try_result(Err("boom".to_string()));
    assert_eq!(raised, TryResult::Raised("boom".to_string()));
    assert!(!try_ok(&raised));
    assert_eq!(try_unwrap(raised.clone(), Some(1)), Ok(1));
    assert_eq!(try_unwrap(raised, None), Err("boom".to_string()));
    assert_eq!(try_match(ValueKind::Table, ValueKind::Function), Ok(HandlerUse::Call));
    assert_eq!(try_match(ValueKind::Table, ValueKind::Text), Ok(HandlerUse::Return));
    assert_eq!(try_match(ValueKind::Table, ValueKind::Nil), Ok(HandlerUse::Return));
    assert_eq!(
        try_match(ValueKind::Text, ValueKind::Function),
        Err(TestingError::HandlersNotATable(ValueKind::Text))
    );
}

#[test]
fn numbers_in_decimal() {
    assert_eq!(decimal(0), "0");
    assert_eq!(decimal(7), "7");
    assert_eq!(decimal(10), "10");
    assert_eq!(decimal(4096), "4096");
    assert_eq!(decimal(u64::MAX), "18446744073709551615");
}

