use std::cell::RefCell;
use std::collections::HashMap;
use std::rc::Rc;

use mlua::{Error, Lua, MultiValue, Table, Value};
use seal::channel::{open_channels, Endpoints, TextKind};
use seal::context::{ExecutionContext, IoFailure, LoadError, RequireError, RequireStep};
use seal::report::{describe_require, parse_traceback};
use seal::resolver::PathKind;

type Context = ExecutionContext<Value>;

/// Files held in memory, and a record of every read.
struct Disk {
    files: HashMap<String, String>,
    reads: RefCell<Vec<String>>,
    probes: RefCell<Vec<String>>,
}

impl Disk {
    fn new(files: &[(&str, &str)]) -> Rc<Disk> {
        Rc::new(Disk {
            files: files.iter().map(|(p, s)| (p.to_string(), s.to_string())).collect(),
            reads: RefCell::new(Vec::new()),
            probes: RefCell::new(Vec::new()),
        })
    }

    fn probe(&self, path: &str) -> PathKind {
        self.probes.borrow_mut().push(path.to_string());
        let inside = format!("{}/", path);
        if self.files.contains_key(path) {
            PathKind::File
        } else if self.files.keys().any(|file| file.starts_with(&inside)) {
            PathKind::Directory
        } else {
            PathKind::Missing
        }
    }

    fn read(&self, path: &str) -> Result<String, IoFailure> {
        self.reads.borrow_mut().push(path.to_string());
        self.files.get(path).cloned().ok_or(IoFailure::NotFound)
    }

    fn reads_of(&self, path: &str) -> usize {
        self.reads.borrow().iter().filter(|read| read.as_str() == path).count()
    }
}

fn step_context<R>(lua: &Lua, action: impl FnOnce(&mut Context) -> R) -> R {
    let mut context = lua.app_data_mut::<Context>().expect("the engine has a context");
    action(&mut context)
}

fn refuse(error: RequireError<Error>) -> Error {
    match error {
        RequireError::Load(LoadError::EvaluationError(engine_error)) => engine_error,
        other => Error::runtime(describe_require(&other).unwrap_or_default()),
    }
}

/// An engine whose `require` is driven by an execution context over `disk`.
fn engine(entry: &str, disk: Rc<Disk>) -> Lua {
    let lua = Lua::new();
    lua.set_app_data(Context::for_entry(entry));
    let require = lua
        .create_function(move |lua, raw: String| -> mlua::Result<Value> {
            let mut step: RequireStep<Error> = step_context(lua, |context| context.require(&raw));
            loop {
                step = match step {
                    RequireStep::Capability { alias, .. } => {
                        let table = lua.create_table()?;
                        table.set("alias", alias)?;
                        return Ok(Value::Table(table));
                    }
                    RequireStep::Probe { path } => {
                        let observed = disk.probe(&path);
                        step_context(lua, |context| context.on_probe(observed))
                    }
                    RequireStep::Cached { key } | RequireStep::Loaded { key } => {
                        let value = step_context(lua, |context| context.cached(&key).cloned());
                        return Ok(value.expect("a module that was loaded is cached"));
                    }
                    RequireStep::Read { path } => {
                        let content = disk.read(&path);
                        step_context(lua, |context| context.on_read(content))
                    }
                    RequireStep::Evaluate { source, debug_name } => {
                        let result = lua.load(source).set_name(debug_name).eval::<Value>();
                        step_context(lua, |context| context.on_evaluated(result))
                    }
                    RequireStep::Failed(error) => return Err(refuse(error)),
                };
            }
        })
        .unwrap();
    lua.globals().set("require", require).unwrap();
    let current = lua
        .create_function(|lua, ()| Ok(step_context(lua, |context| context.current_path().to_string())))
        .unwrap();
    lua.globals().set("current_path", current).unwrap();
    lua
}

fn run<R: mlua::FromLuaMulti>(lua: &Lua, entry: &str, disk: &Disk) -> R {
    let source = disk.files.get(entry).cloned().expect("the entry script exists");
    lua.load(source).set_name(entry).eval::<R>().unwrap()
}

#[test]
fn requiring_a_module_twice_reads_and_evaluates_it_once() {
    let disk = Disk::new(&[
        (
            "app/main.luau",
            "local a = require('./m')\nlocal b = require('./m.luau')\nreturn rawequal(a, b), evaluations, a.n",
        ),
        ("app/m.luau", "evaluations = (evaluations or 0) + 1\nreturn { n = evaluations }"),
    ]);
    let lua = engine("app/main.luau", disk.clone());
    let (same, evaluations, n): (bool, i32, i32) = run(&lua, "app/main.luau", &disk);
    assert!(same);
    assert_eq!(evaluations, 1);
    assert_eq!(n, 1);
    assert_eq!(disk.reads_of("app/m.luau"), 1);
}

#[test]
fn sibling_modules_share_one_evaluation_of_a_common_module() {
    let disk = Disk::new(&[
        ("app/main.luau", "local a = require('./a')\nlocal b = require('./sub/b')\nreturn a + b, count"),
        ("app/a.luau", "return require('./c').n"),
        ("app/sub/b.luau", "return require('../c').n"),
        ("app/c.luau", "count = (count or 0) + 1\nreturn { n = 20 + count }"),
    ]);
    let lua = engine("app/main.luau", disk.clone());
    let (sum, count): (i32, i32) = run(&lua, "app/main.luau", &disk);
    assert_eq!(count, 1);
    assert_eq!(sum, 42);
    assert_eq!(disk.reads_of("app/c.luau"), 1);
}

#[test]
fn unknown_capability_error_names_the_alias() {
    let disk = Disk::new(&[(
        "main.luau",
        "local ok, err = pcall(require, '@std/doesnotexist')\nreturn ok, tostring(err)",
    )]);
    let lua = engine("main.luau", disk.clone());
    let (ok, message): (bool, String) = run(&lua, "main.luau", &disk);
    assert!(!ok);
    assert!(message.contains("@std/doesnotexist"));
    assert!(disk.probes.borrow().is_empty());
}

#[test]
fn capability_is_built_afresh_and_never_touches_the_disk() {
    let disk = Disk::new(&[(
        "main.luau",
        "local a = require('@std/fs')\nlocal b = require('@std/fs')\nreturn a.alias, b.alias, rawequal(a, b)",
    )]);
    let lua = engine("main.luau", disk.clone());
    let (first, second, identical): (String, String, bool) = run(&lua, "main.luau", &disk);
    assert_eq!(first, "@std/fs");
    assert_eq!(second, "@std/fs");
    // every lookup builds a new table: the two are equal in content, not in identity
    assert!(!identical);
    assert!(disk.probes.borrow().is_empty());
    assert!(disk.reads.borrow().is_empty());
}

#[test]
fn nested_requires_resolve_against_the_requiring_module() {
    let disk = Disk::new(&[
        ("app/main.luau", "local a = require('./lib/a')\nreturn a, current_path()"),
        ("app/lib/a.luau", "local b = require('./b')\nreturn b .. ' via ' .. current_path()"),
        ("app/lib/b.luau", "return current_path()"),
    ]);
    let lua = engine("app/main.luau", disk.clone());
    let (a, after): (String, String) = run(&lua, "app/main.luau", &disk);
    assert_eq!(a, "app/lib/b.luau via app/lib/a.luau");
    assert_eq!(after, "app/main.luau");
}

#[test]
fn directory_require_is_the_require_of_its_entry_file() {
    let disk = Disk::new(&[
        (
            "app/main.luau",
            "local d = require('./D')\nlocal e = require('./D/init.luau')\nreturn rawequal(d, e), loads",
        ),
        ("app/D/init.luau", "loads = (loads or 0) + 1\nreturn {}"),
        ("app/E/other.luau", "return {}"),
    ]);
    let lua = engine("app/main.luau", disk.clone());
    let (same, loads): (bool, i32) = run(&lua, "app/main.luau", &disk);
    assert!(same);
    assert_eq!(loads, 1);
    let message = lua
        .load("return select(2, pcall(require, './E'))")
        .set_name("app/main.luau")
        .eval::<Value>()
        .unwrap()
        .to_string()
        .unwrap();
    assert!(message.contains("require: required directory doesn't contain an init.luau"));
    assert!(!message.contains("doesn't exist"));
}

#[test]
fn failing_module_propagates_its_error_and_restores_the_path() {
    let disk = Disk::new(&[
        (
            "app/main.luau",
            "local ok, err = pcall(require, './sub/bad')\nlocal good = require('./good')\nreturn ok, tostring(err), good, current_path()",
        ),
        ("app/sub/bad.luau", "error('boom')"),
        ("app/good.luau", "return 'fine'"),
    ]);
    let lua = engine("app/main.luau", disk.clone());
    let (ok, message, good, path): (bool, String, String, String) =
        run(&lua, "app/main.luau", &disk);
    assert!(!ok);
    assert!(message.contains("boom"));
    assert_eq!(good, "fine");
    assert_eq!(path, "app/main.luau");
    // a load that failed is not cached: the next request reads the file again
    let _ = lua.load("pcall(require, './sub/bad')").set_name("app/main.luau").exec();
    assert_eq!(disk.reads_of("app/sub/bad.luau"), 2);
}

#[test]
fn missing_module_is_reported_with_its_path() {
    let disk = Disk::new(&[(
        "app/main.luau",
        "local ok, err = pcall(require, './nowhere')\nreturn ok, tostring(err)",
    )]);
    let lua = engine("app/main.luau", disk.clone());
    let (ok, message): (bool, String) = run(&lua, "app/main.luau", &disk);
    assert!(!ok);
    assert!(message.contains("require: path \"app/nowhere\" doesn't exist"));
    assert_eq!(
        disk.probes.borrow().as_slice(),
        ["app/nowhere".to_string(), "app/nowhere.luau".to_string()]
    );
}

#[test]
fn engine_error_text_names_the_script() {
    let lua = Lua::new();
    let err = lua.load("local x = nil\nx()").set_name("chunk").exec().unwrap_err();
    let raw = err.to_string();
    let shown = parse_traceback(&raw, "./src/main.luau");
    assert!(raw.contains("[string \"chunk\"]"));
    assert!(!shown.contains("[string \""));
    assert!(shown.contains("[\"./src/main.luau\"]"));
}

/// The functions by which one side of the queues talks to the other.
fn channel_table(lua: &Lua, ends: Endpoints) -> Table {
    let ends = Rc::new(ends);
    let table = lua.create_table().unwrap();
    let out = ends.clone();
    let send = lua
        .create_function(move |_, args: MultiValue| {
            let text = args.iter().last().and_then(|v| v.to_string().ok()).unwrap_or_default();
            out.send(TextKind::Plain, text).map_err(|err| Error::runtime(format!("{:?}", err)))
        })
        .unwrap();
    table.set("send", send).unwrap();
    let input = ends.clone();
    let read_await = lua
        .create_function(move |_, _: MultiValue| match input.read_await() {
            Ok((TextKind::Plain, text)) => Ok(text),
            Ok((TextKind::Structured, text)) => Ok(text),
            Err(err) => Err(Error::runtime(format!("{:?}", err))),
        })
        .unwrap();
    table.set("read_await", read_await).unwrap();
    let input = ends;
    let read = lua
        .create_function(move |_, _: MultiValue| Ok(input.read().map(|(_, text)| text)))
        .unwrap();
    table.set("read", read).unwrap();
    table
}

#[test]
fn ping_pong_between_two_engines() {
    let pair = open_channels();
    let parent = Lua::new();
    let handle = channel_table(&parent, pair.parent);
    parent.globals().set("handle", handle).unwrap();
    let child = Lua::new();
    let channel = channel_table(&child, pair.child);
    child.globals().set("channel", channel).unwrap();

    parent.load("handle:send('ping')").exec().unwrap();
    child
        .load("local got = channel:read_await()\nassert(got == 'ping')\nchannel:send('pong')")
        .exec()
        .unwrap();
    let answer: String = parent.load("return handle:read_await()").eval().unwrap();
    assert_eq!(answer, "pong");

    // a string is a string to the reader, whatever its first character
    parent.load("handle:send('{x')").exec().unwrap();
    let kind: String = child.load("return type(channel:read_await())").eval().unwrap();
    assert_eq!(kind, "string");
    parent.load("handle:send('{x')").exec().unwrap();
    let text: String = child.load("return channel:read_await()").eval().unwrap();
    assert_eq!(text, "{x");
    let nothing: Option<String> = parent.load("return handle:read()").eval().unwrap();
    assert_eq!(nothing, None);

    // when the child is gone, a waiting read fails instead of returning nothing
    drop(child);
    let failed: bool = parent
        .load("local ok = pcall(function() return handle:read_await() end)\nreturn not ok")
        .eval()
        .unwrap();
    assert!(failed);
}
