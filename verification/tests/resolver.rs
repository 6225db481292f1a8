use seal::registry::{
    aggregate, descriptors, find, lookup, reserved, shape, Capability, CapabilityShape,
};
use seal::resolver::{
    locate, lookup_begin, lookup_next, path_kind, relative, resolve, resolve_path, Located,
    LookupStage, LookupStep, ModuleKind, PathKind, ResolutionError, ResolvedModule,
};

fn on_disk(files: &'static [&'static str], dirs: &'static [&'static str]) -> impl Fn(&str) -> PathKind {
    move |path: &str| {
        if files.contains(&path) {
            PathKind::File
        } else if dirs.contains(&path) {
            PathKind::Directory
        } else {
            PathKind::Missing
        }
    }
}

#[test]
fn lookup_finds_every_alias() {
    assert_eq!(lookup("@std/fs"), Some(Capability::Fs));
    assert_eq!(lookup("@std/fs/path"), Some(Capability::FsPath));
    assert_eq!(lookup("@std/io/colors"), Some(Capability::Colors));
    assert_eq!(lookup("@std/colors"), Some(Capability::Colors));
    assert_eq!(lookup("@std/datetime"), Some(Capability::Datetime));
    assert_eq!(lookup("@std/time/datetime"), Some(Capability::Datetime));
    assert_eq!(lookup("@std/serde/json"), Some(Capability::Json));
    assert_eq!(lookup("@std/json"), Some(Capability::Json));
    assert_eq!(lookup("@std/testing/try"), Some(Capability::TestingTry));
    assert_eq!(lookup("@std"), Some(Capability::Std));
    assert_eq!(lookup("@interop"), Some(Capability::Interop));
    assert_eq!(lookup("@interop/mlua"), Some(Capability::InteropMlua));
    let table = descriptors();
    assert_eq!(table.len(), 35);
    for row in &table {
        assert_eq!(lookup(row.alias), Some(row.factory));
        assert_eq!(find(&table, row.alias), Some(row.factory));
    }
}

#[test]
fn lookup_is_exact() {
    assert_eq!(lookup("@std/doesnotexist"), None);
    assert_eq!(lookup("@std/fs/"), None);
    assert_eq!(lookup("@std/f"), None);
    assert_eq!(lookup("std/fs"), None);
    assert_eq!(lookup(""), None);
}

#[test]
fn aggregate_members_are_registered_under_their_own_alias() {
    let members = aggregate();
    assert_eq!(members.len(), 14);
    for member in &members {
        if member.factory != Capability::Format {
            assert_eq!(lookup(&format!("@std/{}", member.alias)), Some(member.factory));
        }
    }
    assert!(members.iter().any(|m| m.alias == "format" && m.factory == Capability::Format));
}

#[test]
fn shape_of_functions_and_tables() {
    assert_eq!(shape(Capability::Fs), CapabilityShape::Table);
    assert_eq!(shape(Capability::Std), CapabilityShape::Table);
    assert_eq!(shape(Capability::IoClear), CapabilityShape::Function);
    assert_eq!(shape(Capability::NetRequest), CapabilityShape::Function);
    assert_eq!(shape(Capability::TestingTry), CapabilityShape::Function);
    assert_eq!(shape(Capability::Format), CapabilityShape::Function);
}

#[test]
fn reserved_prefixes() {
    assert!(reserved("@std"));
    assert!(reserved("@std/anything"));
    assert!(reserved("@stdx"));
    assert!(reserved("@interop/mlua"));
    assert!(!reserved("@other/lib"));
    assert!(!reserved("./@std"));
}

#[test]
fn relative_requests() {
    assert!(relative("./a"));
    assert!(relative("../a"));
    assert!(!relative("a"));
    assert!(!relative(".a"));
    assert!(!relative("/a"));
}

#[test]
fn resolve_path_uses_directory_of_requester() {
    assert_eq!(resolve_path("./b", "/home/u/src/a.luau"), Ok("/home/u/src/b".to_string()));
    assert_eq!(resolve_path("../lib/c", "src/app/main.luau"), Ok("src/lib/c".to_string()));
    assert_eq!(resolve_path("./b", "main.luau"), Ok("b".to_string()));
}

#[test]
fn resolve_path_depends_only_on_request_and_requester() {
    let first = resolve_path("./util/strings", "/project/src/main.luau");
    let second = resolve_path("./util/strings", "/project/src/other.luau");
    assert_eq!(first, Ok("/project/src/util/strings".to_string()));
    assert_eq!(first, second);
}

#[test]
fn resolve_path_rejects_bare_names() {
    assert_eq!(
        resolve_path("b", "/home/u/src/a.luau"),
        Err(ResolutionError::MalformedPath("b".to_string()))
    );
    assert_eq!(
        resolve_path("lib/b.luau", "/home/u/src/a.luau"),
        Err(ResolutionError::MalformedPath("lib/b.luau".to_string()))
    );
}

#[test]
fn resolve_path_rejects_a_requester_without_a_name() {
    assert_eq!(resolve_path("./b", ""), Err(ResolutionError::MalformedPath("".to_string())));
    assert_eq!(
        resolve_path("./b", "src/"),
        Err(ResolutionError::MalformedPath("src/".to_string()))
    );
}

#[test]
fn locate_orders_its_rules() {
    assert_eq!(
        locate("@std/fs", "main.luau"),
        Ok(Located::Capability { alias: "@std/fs".to_string(), factory: Capability::Fs })
    );
    assert_eq!(
        locate("@std/doesnotexist", "main.luau"),
        Err(ResolutionError::UnknownCapability("@std/doesnotexist".to_string()))
    );
    assert_eq!(
        locate("@mylib/thing", "main.luau"),
        Err(ResolutionError::AliasNotImplemented("@mylib/thing".to_string()))
    );
    assert_eq!(
        locate("./x", "src/main.luau"),
        Ok(Located::Candidate("src/x".to_string()))
    );
    assert_eq!(
        locate("x", "src/main.luau"),
        Err(ResolutionError::MalformedPath("x".to_string()))
    );
}

#[test]
fn locate_settles_a_capability_without_a_requester() {
    assert_eq!(locate("@std/json", ""), locate("@std/json", "/any/where.luau"));
}

#[test]
fn lookup_steps_in_order() {
    assert_eq!(
        lookup_begin("src/m"),
        LookupStep::Probe { path: "src/m".to_string(), stage: LookupStage::Exact }
    );
    assert_eq!(
        lookup_next("src/m", LookupStage::Exact, PathKind::File),
        LookupStep::Found("src/m".to_string())
    );
    assert_eq!(
        lookup_next("src/m", LookupStage::Exact, PathKind::Directory),
        LookupStep::Probe { path: "src/m/init.luau".to_string(), stage: LookupStage::Entry }
    );
    assert_eq!(
        lookup_next("src/m", LookupStage::Exact, PathKind::Missing),
        LookupStep::Probe { path: "src/m.luau".to_string(), stage: LookupStage::WithExtension }
    );
    assert_eq!(
        lookup_next("src/m", LookupStage::Entry, PathKind::File),
        LookupStep::Found("src/m/init.luau".to_string())
    );
    assert_eq!(
        lookup_next("src/m", LookupStage::Entry, PathKind::Missing),
        LookupStep::Failed(ResolutionError::DirectoryMissingEntry("src/m".to_string()))
    );
    assert_eq!(
        lookup_next("src/m", LookupStage::Entry, PathKind::Directory),
        LookupStep::Failed(ResolutionError::DirectoryMissingEntry("src/m".to_string()))
    );
    assert_eq!(
        lookup_next("src/m", LookupStage::WithExtension, PathKind::File),
        LookupStep::Found("src/m.luau".to_string())
    );
    assert_eq!(
        lookup_next("src/m", LookupStage::WithExtension, PathKind::Missing),
        LookupStep::Failed(ResolutionError::FileNotFound("src/m".to_string()))
    );
    assert_eq!(
        lookup_next("src/m", LookupStage::WithExtension, PathKind::Directory),
        LookupStep::Failed(ResolutionError::FileNotFound("src/m".to_string()))
    );
}

#[test]
fn path_kind_of_metadata() {
    assert_eq!(path_kind(true, true, false), PathKind::File);
    assert_eq!(path_kind(true, false, true), PathKind::Directory);
    assert_eq!(path_kind(true, false, false), PathKind::Missing);
    assert_eq!(path_kind(false, true, false), PathKind::Missing);
}

#[test]
fn resolve_exact_file_wins() {
    let fs = on_disk(&["src/m", "src/m.luau"], &[]);
    assert_eq!(
        resolve("./m", "src/main.luau", fs),
        Ok(ResolvedModule { canonical_key: "src/m".to_string(), kind: ModuleKind::FileModule })
    );
}

#[test]
fn resolve_appends_the_extension() {
    let fs = on_disk(&["src/m.luau"], &[]);
    assert_eq!(
        resolve("./m", "src/main.luau", fs),
        Ok(ResolvedModule { canonical_key: "src/m.luau".to_string(), kind: ModuleKind::FileModule })
    );
}

#[test]
fn resolve_reports_a_missing_file() {
    let fs = on_disk(&[], &[]);
    assert_eq!(
        resolve("./m", "src/main.luau", fs),
        Err(ResolutionError::FileNotFound("src/m".to_string()))
    );
}

#[test]
fn directory_require_equals_require_of_its_entry() {
    let fs = on_disk(&["proj/D/init.luau"], &["proj/D"]);
    let by_directory = resolve("./D", "proj/main.luau", &fs);
    let by_entry = resolve("./D/init.luau", "proj/main.luau", &fs);
    assert_eq!(
        by_directory,
        Ok(ResolvedModule {
            canonical_key: "proj/D/init.luau".to_string(),
            kind: ModuleKind::FileModule
        })
    );
    assert_eq!(by_directory, by_entry);
}

#[test]
fn directory_without_entry_is_not_file_not_found() {
    let fs = on_disk(&["proj/D.luau"], &["proj/D"]);
    assert_eq!(
        resolve("./D", "proj/main.luau", fs),
        Err(ResolutionError::DirectoryMissingEntry("proj/D".to_string()))
    );
}

#[test]
fn resolve_capability_never_probes() {
    let fs = |_: &str| -> PathKind { panic!("a capability must not touch the disk") };
    assert_eq!(
        resolve("@std/fs", "anywhere.luau", fs),
        Ok(ResolvedModule { canonical_key: "@std/fs".to_string(), kind: ModuleKind::Capability })
    );
    let fs = |_: &str| -> PathKind { panic!("a capability must not touch the disk") };
    assert_eq!(
        resolve("@std/doesnotexist", "anywhere.luau", fs),
        Err(ResolutionError::UnknownCapability("@std/doesnotexist".to_string()))
    );
}

#[test]
fn resolve_same_file_from_two_siblings() {
    let fs = on_disk(&["app/shared/c.luau"], &[]);
    let from_a = resolve("./shared/c", "app/a.luau", &fs);
    let from_b = resolve("../shared/c", "app/sub/b.luau", &fs);
    assert_eq!(from_a, from_b);
    assert_eq!(from_a.unwrap().canonical_key, "app/shared/c.luau");
}
