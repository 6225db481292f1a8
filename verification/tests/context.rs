use seal::cache::ModuleCache;
use seal::context::{
    check_required, ExecutionContext, IoFailure, LoadError, RequireError, RequireStep,
};
use seal::registry::Capability;
use seal::resolver::{PathKind, ResolutionError};
use seal::value::ValueKind;

type Step = RequireStep<String>;

fn probe(path: &str) -> Step {
    RequireStep::Probe { path: path.to_string() }
}

/// Loads the module at `key` (found at the first probe) whose evaluation
/// gives `value`; returns the number of reads and evaluations it took.
fn load(ctx: &mut ExecutionContext<i32>, raw: &str, key: &str, value: i32) -> (u32, u32) {
    let mut reads = 0;
    let mut evaluations = 0;
    let step: Step = ctx.require(raw);
    assert_eq!(step, probe(key));
    let step: Step = ctx.on_probe(PathKind::File);
    match step {
        RequireStep::Cached { key: found } => {
            assert_eq!(found, key);
            return (reads, evaluations);
        }
        RequireStep::Read { path } => {
            assert_eq!(path, key);
            reads += 1;
        }
        other => panic!("unexpected step {:?}", other),
    }
    let step: Step = ctx.on_read(Ok("return 1".to_string()));
    assert_eq!(
        step,
        RequireStep::Evaluate { source: "return 1".to_string(), debug_name: key.to_string() }
    );
    evaluations += 1;
    let step: Step = ctx.on_evaluated(Ok(value));
    assert_eq!(step, RequireStep::Loaded { key: key.to_string() });
    (reads, evaluations)
}

#[test]
fn new_context_has_entry_and_current_path() {
    let ctx: ExecutionContext<i32> = ExecutionContext::for_entry("src/main.luau");
    assert_eq!(ctx.entry_path(), Some("src/main.luau"));
    assert_eq!(ctx.current_path(), "src/main.luau");
    assert_eq!(ctx.depth(), 0);
    assert_eq!(ctx.cached("src/main.luau"), None);
    let child: ExecutionContext<i32> = ExecutionContext::seeded("workers/w.luau");
    assert_eq!(child.entry_path(), None);
    assert_eq!(child.current_path(), "workers/w.luau");
}

#[test]
fn requiring_twice_reads_and_evaluates_once() {
    let mut ctx: ExecutionContext<i32> = ExecutionContext::for_entry("src/main.luau");
    let first = load(&mut ctx, "./m.luau", "src/m.luau", 41);
    assert_eq!(first, (1, 1));
    assert_eq!(ctx.cached("src/m.luau"), Some(&41));
    let second = load(&mut ctx, "./m.luau", "src/m.luau", 99);
    assert_eq!(second, (0, 0));
    assert_eq!(ctx.cached("src/m.luau"), Some(&41));
    assert_eq!(ctx.depth(), 0);
}

#[test]
fn capability_is_resolved_without_disk_both_times() {
    let mut ctx: ExecutionContext<i32> = ExecutionContext::for_entry("src/main.luau");
    for _ in 0..2 {
        let step: Step = ctx.require("@std/fs");
        assert_eq!(
            step,
            RequireStep::Capability { alias: "@std/fs".to_string(), factory: Capability::Fs }
        );
        assert_eq!(ctx.depth(), 0);
        assert_eq!(ctx.current_path(), "src/main.luau");
    }
}

#[test]
fn unknown_capability_fails_at_once() {
    let mut ctx: ExecutionContext<i32> = ExecutionContext::for_entry("src/main.luau");
    let step: Step = ctx.require("@std/doesnotexist");
    assert_eq!(
        step,
        RequireStep::Failed(RequireError::Resolution(ResolutionError::UnknownCapability(
            "@std/doesnotexist".to_string()
        )))
    );
    assert_eq!(ctx.depth(), 0);
}

#[test]
fn current_path_follows_the_module_being_evaluated() {
    let mut ctx: ExecutionContext<i32> = ExecutionContext::for_entry("app/main.luau");
    let _: Step = ctx.require("./lib/a");
    let _: Step = ctx.on_probe(PathKind::Missing);
    let step: Step = ctx.on_probe(PathKind::File);
    assert_eq!(step, RequireStep::Read { path: "app/lib/a.luau".to_string() });
    assert_eq!(ctx.current_path(), "app/main.luau");
    let _: Step = ctx.on_read(Ok("...".to_string()));
    assert_eq!(ctx.current_path(), "app/lib/a.luau");
    // a nested request resolves against the module that is being evaluated
    let step: Step = ctx.require("./b");
    assert_eq!(step, probe("app/lib/b"));
    assert_eq!(ctx.depth(), 2);
    let _: Step = ctx.on_probe(PathKind::File);
    let _: Step = ctx.on_read(Ok("...".to_string()));
    assert_eq!(ctx.current_path(), "app/lib/b");
    let step: Step = ctx.on_evaluated(Ok(2));
    assert_eq!(step, RequireStep::Loaded { key: "app/lib/b".to_string() });
    assert_eq!(ctx.current_path(), "app/lib/a.luau");
    let step: Step = ctx.on_evaluated(Ok(1));
    assert_eq!(step, RequireStep::Loaded { key: "app/lib/a.luau".to_string() });
    assert_eq!(ctx.current_path(), "app/main.luau");
    assert_eq!(ctx.depth(), 0);
}

#[test]
fn current_path_is_restored_when_evaluation_fails() {
    let mut ctx: ExecutionContext<i32> = ExecutionContext::for_entry("app/main.luau");
    let _: Step = ctx.require("./bad.luau");
    let _: Step = ctx.on_probe(PathKind::File);
    let _: Step = ctx.on_read(Ok("error()".to_string()));
    assert_eq!(ctx.current_path(), "app/bad.luau");
    let step: Step = ctx.on_evaluated(Err("boom".to_string()));
    assert_eq!(
        step,
        RequireStep::Failed(RequireError::Load(LoadError::EvaluationError("boom".to_string())))
    );
    assert_eq!(ctx.current_path(), "app/main.luau");
    assert_eq!(ctx.depth(), 0);
    assert_eq!(ctx.cached("app/bad.luau"), None);
}

#[test]
fn failed_load_is_not_cached_and_can_be_retried() {
    let mut ctx: ExecutionContext<i32> = ExecutionContext::for_entry("app/main.luau");
    let _: Step = ctx.require("./late.luau");
    let _: Step = ctx.on_probe(PathKind::File);
    let step: Step = ctx.on_read(Err(IoFailure::PermissionDenied));
    assert_eq!(
        step,
        RequireStep::Failed(RequireError::Load(LoadError::ReadError {
            kind: IoFailure::PermissionDenied,
            path: "app/late.luau".to_string()
        }))
    );
    assert_eq!(ctx.cached("app/late.luau"), None);
    assert_eq!(ctx.depth(), 0);
    assert_eq!(load(&mut ctx, "./late.luau", "app/late.luau", 5), (1, 1));
    assert_eq!(ctx.cached("app/late.luau"), Some(&5));
}

#[test]
fn resolution_failures_drop_the_request() {
    let mut ctx: ExecutionContext<i32> = ExecutionContext::for_entry("app/main.luau");
    let _: Step = ctx.require("./nothing");
    let step: Step = ctx.on_probe(PathKind::Missing);
    assert_eq!(step, probe("app/nothing.luau"));
    let step: Step = ctx.on_probe(PathKind::Missing);
    assert_eq!(
        step,
        RequireStep::Failed(RequireError::Resolution(ResolutionError::FileNotFound(
            "app/nothing".to_string()
        )))
    );
    assert_eq!(ctx.depth(), 0);

    let _: Step = ctx.require("./dir");
    let step: Step = ctx.on_probe(PathKind::Directory);
    assert_eq!(step, probe("app/dir/init.luau"));
    let step: Step = ctx.on_probe(PathKind::Missing);
    assert_eq!(
        step,
        RequireStep::Failed(RequireError::Resolution(ResolutionError::DirectoryMissingEntry(
            "app/dir".to_string()
        )))
    );
    assert_eq!(ctx.depth(), 0);
    assert_eq!(ctx.current_path(), "app/main.luau");
}

#[test]
fn bare_and_alias_requests_are_refused() {
    let mut ctx: ExecutionContext<i32> = ExecutionContext::for_entry("app/main.luau");
    let step: Step = ctx.require("module");
    assert_eq!(
        step,
        RequireStep::Failed(RequireError::Resolution(ResolutionError::MalformedPath(
            "module".to_string()
        )))
    );
    let step: Step = ctx.require("@vendor/thing");
    assert_eq!(
        step,
        RequireStep::Failed(RequireError::Resolution(ResolutionError::AliasNotImplemented(
            "@vendor/thing".to_string()
        )))
    );
}

#[test]
fn inline_snippet_cannot_require_relative_files() {
    let mut ctx: ExecutionContext<i32> = ExecutionContext::seeded("");
    let step: Step = ctx.require("./x");
    assert_eq!(
        step,
        RequireStep::Failed(RequireError::Resolution(ResolutionError::MalformedPath(
            "".to_string()
        )))
    );
}

#[test]
fn siblings_share_one_evaluation_of_a_common_module() {
    let mut ctx: ExecutionContext<i32> = ExecutionContext::for_entry("app/main.luau");
    let mut evaluations_of_c = 0;
    for sibling in ["app/a.luau", "app/b.luau"] {
        let raw = format!("./{}", &sibling[4..]);
        let _: Step = ctx.require(&raw);
        let _: Step = ctx.on_probe(PathKind::File);
        let _: Step = ctx.on_read(Ok("require('./c')".to_string()));
        assert_eq!(ctx.current_path(), sibling);
        let (_, evaluated) = load(&mut ctx, "./c.luau", "app/c.luau", 7);
        evaluations_of_c += evaluated;
        let step: Step = ctx.on_evaluated(Ok(0));
        assert_eq!(step, RequireStep::Loaded { key: sibling.to_string() });
    }
    assert_eq!(evaluations_of_c, 1);
    assert_eq!(ctx.cached("app/c.luau"), Some(&7));
}

#[test]
fn module_that_requires_itself_is_refused() {
    let mut ctx: ExecutionContext<i32> = ExecutionContext::for_entry("app/main.luau");
    let _: Step = ctx.require("./a.luau");
    let _: Step = ctx.on_probe(PathKind::File);
    let _: Step = ctx.on_read(Ok("require('./b.luau')".to_string()));
    let _: Step = ctx.require("./b.luau");
    let _: Step = ctx.on_probe(PathKind::File);
    let _: Step = ctx.on_read(Ok("require('./a.luau')".to_string()));
    let _: Step = ctx.require("./a.luau");
    let step: Step = ctx.on_probe(PathKind::File);
    assert_eq!(step, RequireStep::Failed(RequireError::Cyclic("app/a.luau".to_string())));
    assert_eq!(ctx.depth(), 2);
    assert_eq!(ctx.current_path(), "app/b.luau");
}

#[test]
fn reports_out_of_turn_are_refused_and_change_nothing() {
    let mut ctx: ExecutionContext<i32> = ExecutionContext::for_entry("app/main.luau");
    let step: Step = ctx.on_probe(PathKind::File);
    assert_eq!(step, RequireStep::Failed(RequireError::OutOfTurn));
    let step: Step = ctx.on_read(Ok("x".to_string()));
    assert_eq!(step, RequireStep::Failed(RequireError::OutOfTurn));
    let step: Step = ctx.on_evaluated(Ok(1));
    assert_eq!(step, RequireStep::Failed(RequireError::OutOfTurn));
    let _: Step = ctx.require("./m");
    let step: Step = ctx.require("./n");
    assert_eq!(step, RequireStep::Failed(RequireError::OutOfTurn));
    let step: Step = ctx.on_evaluated(Ok(1));
    assert_eq!(step, RequireStep::Failed(RequireError::OutOfTurn));
    assert_eq!(ctx.depth(), 1);
    let step: Step = ctx.on_probe(PathKind::File);
    assert_eq!(step, RequireStep::Read { path: "app/m".to_string() });
    let step: Step = ctx.on_probe(PathKind::File);
    assert_eq!(step, RequireStep::Failed(RequireError::OutOfTurn));
}

#[test]
fn require_argument_must_be_text() {
    assert_eq!(check_required::<String>(ValueKind::Text), Ok(()));
    assert_eq!(
        check_required::<String>(ValueKind::Table),
        Err(RequireError::NotAPath(ValueKind::Table))
    );
}

#[test]
fn cache_stores_once_and_never_replaces() {
    let mut cache: ModuleCache<&str> = ModuleCache::new();
    assert_eq!(cache.len(), 0);
    assert!(!cache.contains("a"));
    assert!(cache.insert("a".to_string(), "first"));
    assert!(!cache.insert("a".to_string(), "second"));
    assert!(cache.insert("b".to_string(), "other"));
    assert_eq!(cache.get("a"), Some(&"first"));
    assert_eq!(cache.get("b"), Some(&"other"));
    assert_eq!(cache.get("c"), None);
    assert!(cache.contains("a"));
    assert_eq!(cache.len(), 2);
}

#[test]
fn get_or_load_runs_the_loader_only_on_a_miss() {
    let mut cache: ModuleCache<u32> = ModuleCache::new();
    let mut calls = 0;
    let got = cache.get_or_load("k", |_: &str| -> Result<u32, String> {
        calls += 1;
        Ok(10)
    });
    assert_eq!(got, Ok(&10));
    let got = cache.get_or_load("k", |_: &str| -> Result<u32, String> {
        calls += 1;
        Ok(20)
    });
    assert_eq!(got, Ok(&10));
    assert_eq!(calls, 1);
}

#[test]
fn get_or_load_does_not_cache_a_failure() {
    let mut cache: ModuleCache<u32> = ModuleCache::new();
    let got = cache.get_or_load("k", |key: &str| -> Result<u32, String> {
        Err(format!("cannot load {}", key))
    });
    assert_eq!(got, Err("cannot load k".to_string()));
    assert!(!cache.contains("k"));
    let got = cache.get_or_load("k", |_: &str| -> Result<u32, String> { Ok(3) });
    assert_eq!(got, Ok(&3));
    assert_eq!(cache.get("k"), Some(&3));
}
