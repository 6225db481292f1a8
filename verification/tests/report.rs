use seal::colors::{paint, wrap_err, BOLD_RED, GREEN, RED, RESET};
use seal::context::{IoFailure, LoadError, RequireError};
use seal::globals::{error, get_script_parent, get_script_path, set_globals, version};
use seal::report::{
    describe_io_failure, describe_require, describe_resolution, label_chunk, parse_traceback,
    report_child, report_top_level, rewrite, strip_newlines_and_colors,
};
use seal::resolver::ResolutionError;
use seal::value::{name_of_kind, ValueKind};

#[test]
fn wrap_err_paints_red() {
    assert_eq!(wrap_err("bad"), "\x1b[31mbad\x1b[0m");
    assert_eq!(paint(GREEN, "ok"), "\x1b[32mok\x1b[0m");
    assert_eq!(RED, "\x1b[31m");
    assert_eq!(RESET, "\x1b[0m");
    assert_eq!(BOLD_RED, "\x1b[1;31m");
}

#[test]
fn strip_colors_removes_every_sequence() {
    assert_eq!(strip_newlines_and_colors("\x1b[31mred\x1b[0m and \x1b[1;33mbold\x1b[0m"), "red and bold");
    assert_eq!(strip_newlines_and_colors("plain"), "plain");
    assert_eq!(strip_newlines_and_colors(&wrap_err("message")), "message");
    assert_eq!(strip_newlines_and_colors("\x1b[mx"), "x");
}

#[test]
fn parse_traceback_names_the_script() {
    assert_eq!(
        parse_traceback("[string \"main\"]:3: attempt to call a nil value", "./src/main.luau"),
        "[\"./src/main.luau\"]:3: attempt to call a nil value"
    );
    assert_eq!(
        parse_traceback(
            "[string \"a\"]:1: x\nstack traceback:\n[string \"b\"]:2 in function _G.error",
            "m.luau"
        ),
        "[\"m.luau\"]:1: x\nstack traceback:\n[\"m.luau\"]:2 in function error"
    );
    assert_eq!(parse_traceback("no labels here", "m.luau"), "no labels here");
    assert_eq!(parse_traceback("[string \"\"]", "m.luau"), "[string \"\"]");
}

#[test]
fn parse_traceback_writes_the_path_literally() {
    assert_eq!(
        parse_traceback("[string \"x\"]:1: e", "$HOME/${0}/m.luau"),
        "[\"$HOME/${0}/m.luau\"]:1: e"
    );
}

#[test]
fn rewrite_leaves_text_alone_when_the_pattern_is_refused() {
    assert_eq!(rewrite("(", "a(b", "x"), "a(b");
    assert_eq!(rewrite("a+", "caaandaa", "-"), "c-nd-");
    assert_eq!(label_chunk("p.luau"), "[\"p.luau\"]");
}

#[test]
fn top_level_report_with_and_without_context() {
    assert_eq!(report_top_level("oops", None), "oops");
    assert_eq!(
        report_top_level("oops", Some("loading config")),
        "\x1b[1;31m[CONTEXT] loading config\x1b[0m: \x1b[31moops"
    );
}

#[test]
fn child_report_names_the_spawning_script() {
    assert_eq!(
        report_child("oops", None, "app/main.luau"),
        "oops\n\x1b[1;31mTHREAD CALLED FROM:\x1b[0m [\"app/main.luau\"]"
    );
    assert_eq!(
        report_child("oops", Some("worker 3"), "app/main.luau"),
        "\x1b[1;31m[CONTEXT] worker 3\x1b[0m\x1b[31m\noops\n THREAD CALLED FROM: app/main.luau"
    );
}

#[test]
fn unknown_capability_message_contains_the_alias() {
    let message =
        describe_resolution(&ResolutionError::UnknownCapability("@std/doesnotexist".to_string()));
    assert!(message.contains("@std/doesnotexist"));
    assert_eq!(message, "program required an unexpected standard library: @std/doesnotexist");
}

#[test]
fn resolution_messages() {
    assert_eq!(
        describe_resolution(&ResolutionError::FileNotFound("src/m".to_string())),
        "require: path \"src/m\" doesn't exist"
    );
    assert_eq!(
        describe_resolution(&ResolutionError::DirectoryMissingEntry("src/d".to_string())),
        "require: required directory doesn't contain an init.luau"
    );
    assert_eq!(
        describe_resolution(&ResolutionError::AliasNotImplemented("@a/b".to_string())),
        "require: aliases other than the standard library are not implemented yet: @a/b"
    );
    assert_eq!(
        describe_resolution(&ResolutionError::MalformedPath("m".to_string())),
        "Invalid require path: Luau requires must start with a require alias (ex. \"@alias/path.luau\") or relative path (ex. \"./path.luau\").\nNotes:\n  - ending a require with .luau is optional\n  - implicit relative paths (ex. require(\"file.luau\") without ./) are no longer allowed; see: https://github.com/luau-lang/rfcs/pull/56"
    );
}

#[test]
fn require_messages() {
    let e: RequireError<String> = RequireError::Load(LoadError::ReadError {
        kind: IoFailure::NotFound,
        path: "src/m.luau".to_string(),
    });
    assert_eq!(
        describe_require(&e),
        Some("require: no such file or directory for resolved path src/m.luau".to_string())
    );
    let e: RequireError<String> = RequireError::Load(LoadError::ReadError {
        kind: IoFailure::PermissionDenied,
        path: "src/m.luau".to_string(),
    });
    assert_eq!(
        describe_require(&e),
        Some("require: error reading file: permission denied".to_string())
    );
    let e: RequireError<String> = RequireError::Load(LoadError::EvaluationError("x".to_string()));
    assert_eq!(describe_require(&e), None);
    let e: RequireError<String> = RequireError::Cyclic("a.luau".to_string());
    assert_eq!(
        describe_require(&e),
        Some("require: module \"a.luau\" requires itself while it is being loaded".to_string())
    );
    let e: RequireError<String> = RequireError::OutOfTurn;
    assert_eq!(describe_require(&e), Some("require: report out of turn".to_string()));
    let e: RequireError<String> = RequireError::NotAPath(ValueKind::Table);
    assert_eq!(
        describe_require(&e),
        Some(
            "require expected a string path (like \"@std/json\" or \"./relative_file\"), got: table"
                .to_string()
        )
    );
    let e: RequireError<String> =
        RequireError::Resolution(ResolutionError::FileNotFound("q".to_string()));
    assert_eq!(describe_require(&e), Some("require: path \"q\" doesn't exist".to_string()));
    assert_eq!(describe_io_failure(IoFailure::Other), "other error");
    assert_eq!(describe_io_failure(IoFailure::NotFound), "entity not found");
}

#[test]
fn kind_names() {
    assert_eq!(name_of_kind(ValueKind::Nil), "nil");
    assert_eq!(name_of_kind(ValueKind::Text), "string");
    assert_eq!(name_of_kind(ValueKind::Buffer), "buffer");
    assert_eq!(name_of_kind(ValueKind::Other), "userdata");
}

#[test]
fn error_quotes_the_message() {
    assert_eq!(error("boom"), "message: \"boom\"");
    assert_eq!(error("say \"hi\"\n"), "message: \"say \\\"hi\\\"\\n\"");
}

#[test]
fn script_path_from_debug_name() {
    assert_eq!(get_script_path("[string \"./src/somewhere.luau\"]"), "./src/somewhere.luau");
    assert_eq!(get_script_path("[string \"\"]"), "");
    assert_eq!(get_script_path("short"), "");
    assert_eq!(
        get_script_parent("[string \"./src/somewhere.luau\"]"),
        Some("./src".to_string())
    );
    assert_eq!(get_script_parent("[string \"main.luau\"]"), Some("".to_string()));
    assert_eq!(get_script_parent("[string \"\"]"), None);
}

#[test]
fn globals_and_version() {
    assert_eq!(
        set_globals(),
        vec!["require", "error", "p", "pp", "print", "warn", "_VERSION", "_G", "_REQUIRE_CACHE"]
    );
    assert_eq!(version("0.1.0", "Luau 0.663"), "seal 0.1.0 | Luau 0.663");
}
