//! The module resolver: from a require request and the requester's path to a
//! capability or to a canonical file path. Capability requests are settled by
//! the registry alone; file requests are resolved against the directory of
//! the requesting script and then looked up on disk in a fixed order, one
//! probe at a time.

use vstd::prelude::*;
use crate::path::{
    child_of, child_path, dir_prefix, directory_of, has_file_name, resolve_against,
    resolved_against,
};
use crate::registry::{is_reserved, lookup, registered, reserved, Capability};
use crate::text::{join_pair, starts_with, to_chars};

verus! {

/// Name of the file that stands for a directory when the directory is
/// required.
pub const ENTRY_FILE: &'static str = "init.luau";

/// Extension that is tried when the required path names no file as written.
pub const SCRIPT_EXTENSION: &'static str = ".luau";

/// Why a request could not be resolved. Each variant carries the path that
/// the message names.
#[derive(Clone, Debug, PartialEq, Eq)]
pub enum ResolutionError {
    /// A reserved prefix with no capability registered under the alias.
    UnknownCapability(String),
    /// An `@` alias outside the reserved prefixes.
    AliasNotImplemented(String),
    /// A request that is neither an alias nor relative, or a requester path
    /// that has no file name to resolve against.
    MalformedPath(String),
    /// Nothing on disk at the resolved path, with or without the extension.
    FileNotFound(String),
    /// A directory without an entry file.
    DirectoryMissingEntry(String),
}

/// `ResolutionError` over sequences of characters.
pub enum ResolutionFailure {
    UnknownCapability(Seq<char>),
    AliasNotImplemented(Seq<char>),
    MalformedPath(Seq<char>),
    FileNotFound(Seq<char>),
    DirectoryMissingEntry(Seq<char>),
}

impl View for ResolutionError {
    type V = ResolutionFailure;

    open spec fn view(&self) -> ResolutionFailure {
        match self {
            ResolutionError::UnknownCapability(p) => ResolutionFailure::UnknownCapability(p@),
            ResolutionError::AliasNotImplemented(p) => ResolutionFailure::AliasNotImplemented(p@),
            ResolutionError::MalformedPath(p) => ResolutionFailure::MalformedPath(p@),
            ResolutionError::FileNotFound(p) => ResolutionFailure::FileNotFound(p@),
            ResolutionError::DirectoryMissingEntry(p) => ResolutionFailure::DirectoryMissingEntry(
                p@,
            ),
        }
    }
}

/// The two kinds of module.
#[derive(Clone, Copy, Debug, PartialEq, Eq, Structural)]
pub enum ModuleKind {
    Capability,
    FileModule,
}

/// A resolved request: the key under which the module is known, and its kind.
#[derive(Clone, Debug, PartialEq, Eq)]
pub struct ResolvedModule {
    pub canonical_key: String,
    pub kind: ModuleKind,
}

impl View for ResolvedModule {
    type V = (Seq<char>, ModuleKind);

    open spec fn view(&self) -> (Seq<char>, ModuleKind) {
        (self.canonical_key@, self.kind)
    }
}

/// What a request points at before the disk is consulted.
#[derive(Clone, Debug, PartialEq, Eq)]
pub enum Located {
    /// A capability, with the alias that named it.
    Capability { alias: String, factory: Capability },
    /// A file or directory, by its normalized path.
    Candidate(String),
}

/// `Located` over sequences of characters.
pub enum Target {
    Capability { alias: Seq<char>, factory: Capability },
    Candidate(Seq<char>),
}

impl View for Located {
    type V = Target;

    open spec fn view(&self) -> Target {
        match self {
            Located::Capability { alias, factory } => Target::Capability {
                alias: alias@,
                factory: *factory,
            },
            Located::Candidate(p) => Target::Candidate(p@),
        }
    }
}

/// What a path names on disk.
#[derive(Clone, Copy, Debug, PartialEq, Eq, Structural)]
pub enum PathKind {
    File,
    Directory,
    Missing,
}

/// The probes of a file lookup, in the order in which they can follow each
/// other.
#[derive(Clone, Copy, Debug, PartialEq, Eq, Structural)]
pub enum LookupStage {
    /// The candidate as written.
    Exact,
    /// The entry file of the candidate, after the candidate was found to be
    /// a directory.
    Entry,
    /// The candidate with the script extension, after nothing was found at
    /// the candidate.
    WithExtension,
}

/// What a file lookup does next.
#[derive(Clone, Debug, PartialEq, Eq)]
pub enum LookupStep {
    /// Ask the filesystem what `path` names, and come back with the answer.
    Probe { path: String, stage: LookupStage },
    /// The lookup ends with this file.
    Found(String),
    /// The lookup ends with this error.
    Failed(ResolutionError),
}

/// `LookupStep` over sequences of characters.
pub enum LookupMove {
    Probe { path: Seq<char>, stage: LookupStage },
    Found(Seq<char>),
    Failed(ResolutionFailure),
}

impl View for LookupStep {
    type V = LookupMove;

    open spec fn view(&self) -> LookupMove {
        match self {
            LookupStep::Probe { path, stage } => LookupMove::Probe { path: path@, stage: *stage },
            LookupStep::Found(p) => LookupMove::Found(p@),
            LookupStep::Failed(e) => LookupMove::Failed(e@),
        }
    }
}

/// A request that starts with `./` or `../`.
pub open spec fn is_relative(raw: Seq<char>) -> bool {
    "./"@.is_prefix_of(raw) || "../"@.is_prefix_of(raw)
}

/// A request that starts with `@`.
pub open spec fn is_alias(raw: Seq<char>) -> bool {
    raw.len() > 0 && raw[0] == '@'
}

/// The normalized path that the relative request `raw` names when it is
/// issued by the script at `current`. Only the two arguments decide it: the
/// directory of the requester and the request.
pub open spec fn relative_target(raw: Seq<char>, current: Seq<char>) -> Result<
    Seq<char>,
    ResolutionFailure,
> {
    if !is_relative(raw) {
        Err(ResolutionFailure::MalformedPath(raw))
    } else if !has_file_name(current) {
        Err(ResolutionFailure::MalformedPath(current))
    } else {
        Ok(resolved_against(dir_prefix(current), raw))
    }
}

/// What the request `raw`, issued by the script at `current`, points at.
/// The rules apply in this order: a reserved prefix is looked up in the
/// registry, exactly; any other alias is refused; everything else must be
/// relative and is resolved against the directory of `current`.
pub open spec fn target_of(raw: Seq<char>, current: Seq<char>) -> Result<
    Target,
    ResolutionFailure,
> {
    if is_reserved(raw) {
        match registered(raw) {
            Some(factory) => Ok(Target::Capability { alias: raw, factory }),
            None => Err(ResolutionFailure::UnknownCapability(raw)),
        }
    } else if is_alias(raw) {
        Err(ResolutionFailure::AliasNotImplemented(raw))
    } else {
        match relative_target(raw, current) {
            Ok(p) => Ok(Target::Candidate(p)),
            Err(e) => Err(e),
        }
    }
}

/// The entry file of the directory `candidate`.
pub open spec fn entry_path(candidate: Seq<char>) -> Seq<char> {
    child_of(candidate, ENTRY_FILE@)
}

/// `candidate` with the script extension appended.
pub open spec fn extended_path(candidate: Seq<char>) -> Seq<char> {
    candidate + SCRIPT_EXTENSION@
}

/// The path that a lookup of `candidate` probes at `stage`.
pub open spec fn probe_path(candidate: Seq<char>, stage: LookupStage) -> Seq<char> {
    match stage {
        LookupStage::Exact => candidate,
        LookupStage::Entry => entry_path(candidate),
        LookupStage::WithExtension => extended_path(candidate),
    }
}

/// The move that follows when the probe of `stage` observed `observed`.
pub open spec fn lookup_move(candidate: Seq<char>, stage: LookupStage, observed: PathKind)
    -> LookupMove {
    match stage {
        LookupStage::Exact => match observed {
            PathKind::File => LookupMove::Found(candidate),
            PathKind::Directory => LookupMove::Probe {
                path: entry_path(candidate),
                stage: LookupStage::Entry,
            },
            PathKind::Missing => LookupMove::Probe {
                path: extended_path(candidate),
                stage: LookupStage::WithExtension,
            },
        },
        LookupStage::Entry => match observed {
            PathKind::File => LookupMove::Found(entry_path(candidate)),
            _ => LookupMove::Failed(ResolutionFailure::DirectoryMissingEntry(candidate)),
        },
        LookupStage::WithExtension => match observed {
            PathKind::File => LookupMove::Found(extended_path(candidate)),
            _ => LookupMove::Failed(ResolutionFailure::FileNotFound(candidate)),
        },
    }
}

/// The file that a lookup of `candidate` ends with on the filesystem `fs`:
/// the candidate itself when it is a file; the entry file when the candidate
/// is a directory that holds one; the candidate with the extension when
/// nothing is at the candidate and that path is a file.
pub open spec fn lookup_outcome(candidate: Seq<char>, fs: spec_fn(Seq<char>) -> PathKind)
    -> Result<Seq<char>, ResolutionFailure> {
    match fs(candidate) {
        PathKind::File => Ok(candidate),
        PathKind::Directory => if fs(entry_path(candidate)) == PathKind::File {
            Ok(entry_path(candidate))
        } else {
            Err(ResolutionFailure::DirectoryMissingEntry(candidate))
        },
        PathKind::Missing => if fs(extended_path(candidate)) == PathKind::File {
            Ok(extended_path(candidate))
        } else {
            Err(ResolutionFailure::FileNotFound(candidate))
        },
    }
}

/// The end of the moves that start at `stage`, each probe answered by `fs`.
pub open spec fn run_lookup(
    candidate: Seq<char>,
    stage: LookupStage,
    fs: spec_fn(Seq<char>) -> PathKind,
) -> Result<Seq<char>, ResolutionFailure> {
    match lookup_move(candidate, stage, fs(probe_path(candidate, stage))) {
        LookupMove::Found(p) => Ok(p),
        LookupMove::Failed(e) => Err(e),
        LookupMove::Probe { path, stage: next } => match lookup_move(candidate, next, fs(path)) {
            LookupMove::Found(p) => Ok(p),
            LookupMove::Failed(e) => Err(e),
            LookupMove::Probe { .. } => Err(ResolutionFailure::FileNotFound(candidate)),
        },
    }
}

/// What the request `raw` from the script at `current` resolves to on the
/// filesystem `fs`.
pub open spec fn resolution(
    raw: Seq<char>,
    current: Seq<char>,
    fs: spec_fn(Seq<char>) -> PathKind,
) -> Result<(Seq<char>, ModuleKind), ResolutionFailure> {
    match target_of(raw, current) {
        Err(e) => Err(e),
        Ok(Target::Capability { alias, factory }) => Ok((alias, ModuleKind::Capability)),
        Ok(Target::Candidate(p)) => match lookup_outcome(p, fs) {
            Ok(key) => Ok((key, ModuleKind::FileModule)),
            Err(e) => Err(e),
        },
    }
}

/// Following the moves one probe at a time, from the exact probe on, ends
/// where `lookup_outcome` says, whatever the filesystem holds; and a lookup
/// never takes more than two probes.
pub proof fn lemma_lookup_moves_reach_outcome(
    candidate: Seq<char>,
    fs: spec_fn(Seq<char>) -> PathKind,
)
    ensures
        run_lookup(candidate, LookupStage::Exact, fs) == lookup_outcome(candidate, fs),
{
}

/// A capability request resolves without a look at the filesystem or at the
/// requester's path: any two filesystems and any two requesters give the same
/// result.
pub proof fn lemma_capability_ignores_disk(
    raw: Seq<char>,
    current_a: Seq<char>,
    current_b: Seq<char>,
    fs_a: spec_fn(Seq<char>) -> PathKind,
    fs_b: spec_fn(Seq<char>) -> PathKind,
)
    requires
        is_reserved(raw),
    ensures
        resolution(raw, current_a, fs_a) == resolution(raw, current_b, fs_b),
        target_of(raw, current_a) == target_of(raw, current_b),
{
}

/// The path of a relative request is decided by the request and the directory
/// of the requesting script: two requesters in the same directory resolve it
/// alike, and the result is that directory followed through the request.
pub proof fn lemma_relative_depends_on_directory(
    raw: Seq<char>,
    current_a: Seq<char>,
    current_b: Seq<char>,
)
    requires
        is_relative(raw),
        has_file_name(current_a),
        has_file_name(current_b),
        dir_prefix(current_a) == dir_prefix(current_b),
    ensures
        relative_target(raw, current_a) == relative_target(raw, current_b),
        relative_target(raw, current_a) == Ok::<Seq<char>, ResolutionFailure>(
            resolved_against(dir_prefix(current_a), raw),
        ),
{
}

/// The path that a relative request resolves to is in normal form: it holds
/// no `.`, no empty segment and no `..` that could be resolved, so that two
/// spellings of one path give one key.
pub proof fn lemma_candidate_is_normal(raw: Seq<char>, current: Seq<char>)
    ensures
        relative_target(raw, current) matches Ok(p) ==> crate::path::normalized(p) == p,
{
    crate::path::lemma_resolved_is_normal(dir_prefix(current), raw);
}

/// A relative request is no alias: it names no capability, whatever the
/// registry holds.
pub proof fn lemma_relative_is_no_alias(raw: Seq<char>)
    requires
        is_relative(raw),
    ensures
        !is_reserved(raw),
        !is_alias(raw),
{
    reveal_strlit("./");
    reveal_strlit("../");
    reveal_strlit("@std");
    reveal_strlit("@interop");
    if "./"@.is_prefix_of(raw) {
        assert("./"@[0] == raw.subrange(0, 2)[0]);
    } else {
        assert("../"@[0] == raw.subrange(0, 3)[0]);
    }
    assert(raw[0] == '.');
    if "@std"@.is_prefix_of(raw) {
        assert("@std"@[0] == raw.subrange(0, 4)[0]);
    }
    if "@interop"@.is_prefix_of(raw) {
        assert("@interop"@[0] == raw.subrange(0, 8)[0]);
    }
}

/// The name of the entry file is a plain name.
pub proof fn lemma_entry_file_is_plain()
    ensures
        crate::path::is_plain_name(ENTRY_FILE@),
{
    reveal_strlit("init.luau");
}

/// Requiring a directory that holds an entry file gives the module that
/// requiring the entry file by its own path gives. Requiring a directory
/// without one fails because the entry is missing, never because the file
/// was not found.
pub proof fn lemma_directory_require(
    raw: Seq<char>,
    current: Seq<char>,
    fs: spec_fn(Seq<char>) -> PathKind,
)
    requires
        is_relative(raw),
        has_file_name(current),
        fs(resolved_against(dir_prefix(current), raw)) == PathKind::Directory,
    ensures
        ({
            let dir = resolved_against(dir_prefix(current), raw);
            let through = raw + seq!['/'] + ENTRY_FILE@;
            &&& fs(entry_path(dir)) == PathKind::File ==> resolution(raw, current, fs) == Ok::<
                (Seq<char>, ModuleKind),
                ResolutionFailure,
            >((entry_path(dir), ModuleKind::FileModule)) && resolution(through, current, fs)
                == resolution(raw, current, fs)
            &&& fs(entry_path(dir)) != PathKind::File ==> resolution(raw, current, fs) == Err::<
                (Seq<char>, ModuleKind),
                ResolutionFailure,
            >(ResolutionFailure::DirectoryMissingEntry(dir))
        }),
{
    let dir = resolved_against(dir_prefix(current), raw);
    let through = raw + seq!['/'] + ENTRY_FILE@;
    lemma_relative_is_no_alias(raw);
    lemma_entry_file_is_plain();
    reveal_strlit("./");
    reveal_strlit("../");
    assert(is_relative(through)) by {
        if "./"@.is_prefix_of(raw) {
            assert("./"@ =~= through.subrange(0, 2));
        } else {
            assert("../"@ =~= raw.subrange(0, 3));
            assert("../"@ =~= through.subrange(0, 3));
        }
    }
    lemma_relative_is_no_alias(through);
    crate::path::lemma_resolved_child(dir_prefix(current), raw, ENTRY_FILE@);
    assert(resolved_against(dir_prefix(current), through) == entry_path(dir));
}

/// Whether `raw` starts with `./` or `../`.
pub fn relative(raw: &str) -> (yes: bool)
    ensures
        yes == is_relative(raw@),
{
    starts_with(raw, "./") || starts_with(raw, "../")
}

/// The normalized path that the relative request `raw` names when the script
/// at `current_path` issues it.
pub fn resolve_path(raw: &str, current_path: &str) -> (out: Result<String, ResolutionError>)
    ensures
        match relative_target(raw@, current_path@) {
            Ok(p) => out matches Ok(s) && s@ == p,
            Err(e) => out matches Err(x) && x@ == e,
        },
{
    if !relative(raw) {
        return Err(ResolutionError::MalformedPath(String::from_str(raw)));
    }
    match directory_of(current_path) {
        None => Err(ResolutionError::MalformedPath(String::from_str(current_path))),
        Some(dir) => Ok(resolve_against(dir.as_str(), raw)),
    }
}

/// What the request `raw`, issued by the script at `current_path`, points at.
pub fn locate(raw: &str, current_path: &str) -> (out: Result<Located, ResolutionError>)
    ensures
        match target_of(raw@, current_path@) {
            Ok(t) => out matches Ok(l) && l@ == t,
            Err(e) => out matches Err(x) && x@ == e,
        },
{
    if reserved(raw) {
        match lookup(raw) {
            Some(factory) => Ok(Located::Capability { alias: String::from_str(raw), factory }),
            None => Err(ResolutionError::UnknownCapability(String::from_str(raw))),
        }
    } else {
        let chars = to_chars(raw);
        if chars.len() > 0 && chars[0] == '@' {
            Err(ResolutionError::AliasNotImplemented(String::from_str(raw)))
        } else {
            match resolve_path(raw, current_path) {
                Ok(p) => Ok(Located::Candidate(p)),
                Err(e) => Err(e),
            }
        }
    }
}

/// The first move of a lookup: probe the candidate as written.
pub fn lookup_begin(candidate: &str) -> (out: LookupStep)
    ensures
        out@ == (LookupMove::Probe { path: candidate@, stage: LookupStage::Exact }),
{
    LookupStep::Probe { path: String::from_str(candidate), stage: LookupStage::Exact }
}

/// The move that follows when the probe of `stage` observed `observed`.
pub fn lookup_next(candidate: &str, stage: LookupStage, observed: PathKind) -> (out: LookupStep)
    ensures
        out@ == lookup_move(candidate@, stage, observed),
{
    match stage {
        LookupStage::Exact => match observed {
            PathKind::File => LookupStep::Found(String::from_str(candidate)),
            PathKind::Directory => LookupStep::Probe {
                path: child_path(candidate, ENTRY_FILE),
                stage: LookupStage::Entry,
            },
            PathKind::Missing => LookupStep::Probe {
                path: join_pair(candidate, SCRIPT_EXTENSION),
                stage: LookupStage::WithExtension,
            },
        },
        LookupStage::Entry => match observed {
            PathKind::File => LookupStep::Found(child_path(candidate, ENTRY_FILE)),
            _ => LookupStep::Failed(
                ResolutionError::DirectoryMissingEntry(String::from_str(candidate)),
            ),
        },
        LookupStage::WithExtension => match observed {
            PathKind::File => LookupStep::Found(join_pair(candidate, SCRIPT_EXTENSION)),
            _ => LookupStep::Failed(ResolutionError::FileNotFound(String::from_str(candidate))),
        },
    }
}

/// What the filesystem's answer about a path amounts to: a file, a directory,
/// or nothing that can be required.
pub fn path_kind(found: bool, is_file: bool, is_dir: bool) -> (out: PathKind)
    ensures
        out == if found && is_file {
            PathKind::File
        } else if found && is_dir {
            PathKind::Directory
        } else {
            PathKind::Missing
        },
{
    if found && is_file {
        PathKind::File
    } else if found && is_dir {
        PathKind::Directory
    } else {
        PathKind::Missing
    }
}

/// The end of a lookup whose first probe observed `first` and whose second
/// probe, if it came to one, observed `second`.
pub open spec fn lookup_with(candidate: Seq<char>, first: PathKind, second: PathKind) -> Result<
    Seq<char>,
    ResolutionFailure,
> {
    match lookup_move(candidate, LookupStage::Exact, first) {
        LookupMove::Found(p) => Ok(p),
        LookupMove::Failed(e) => Err(e),
        LookupMove::Probe { path, stage } => match lookup_move(candidate, stage, second) {
            LookupMove::Found(p) => Ok(p),
            LookupMove::Failed(e) => Err(e),
            LookupMove::Probe { .. } => Err(ResolutionFailure::FileNotFound(candidate)),
        },
    }
}

/// `first` is an answer of `probe` about the candidate, and `second` is
/// one about the path that the lookup probes after it, if it probes one.
pub open spec fn answers<F: Fn(&str) -> PathKind>(
    probe: F,
    candidate: Seq<char>,
    first: PathKind,
    second: PathKind,
) -> bool {
    &&& exists|s: &str| s@ == candidate && #[trigger] probe.ensures((s,), first)
    &&& lookup_move(candidate, LookupStage::Exact, first) matches LookupMove::Probe { path, .. }
        ==> exists|s: &str| s@ == path && #[trigger] probe.ensures((s,), second)
}

/// `out` is what the lookup of `candidate` comes to on the answers `first`
/// and `second`, and these are answers that `probe` gave.
pub open spec fn resolved_on<F: Fn(&str) -> PathKind>(
    probe: F,
    candidate: Seq<char>,
    first: PathKind,
    second: PathKind,
    out: Result<ResolvedModule, ResolutionError>,
) -> bool {
    &&& answers(probe, candidate, first, second)
    &&& match lookup_with(candidate, first, second) {
        Ok(key) => out matches Ok(m) && m@ == (key, ModuleKind::FileModule),
        Err(e) => out matches Err(x) && x@ == e,
    }
}

/// Resolves the request `raw` of the script at `current_path`, asking
/// `probe` what a path names on disk. A capability and a request that does
/// not resolve are settled without a probe. For a file, the candidate is
/// probed first and at most one more path after it, and the result is what
/// the lookup comes to on the answers that `probe` gave.
pub fn resolve<F: Fn(&str) -> PathKind>(raw: &str, current_path: &str, probe: F) -> (out: Result<
    ResolvedModule,
    ResolutionError,
>)
    requires
        forall|p: &str| #[trigger] probe.requires((p,)),
    ensures
        target_of(raw@, current_path@) matches Err(e) ==> (out matches Err(x) && x@ == e),
        target_of(raw@, current_path@) matches Ok(Target::Capability { alias, factory }) ==> (
        out matches Ok(m) && m@ == (alias, ModuleKind::Capability)),
        target_of(raw@, current_path@) matches Ok(Target::Candidate(p)) ==> exists|
            first: PathKind,
            second: PathKind,
        | resolved_on(probe, p, first, second, out),
{
    let located = locate(raw, current_path);
    let candidate = match located {
        Err(e) => {
            assert(target_of(raw@, current_path@) == Err::<Target, ResolutionFailure>(e@));
            return Err(e);
        },
        Ok(Located::Capability { alias, factory }) => {
            assert(target_of(raw@, current_path@) == Ok::<Target, ResolutionFailure>(
                Target::Capability { alias: alias@, factory },
            ));
            return Ok(ResolvedModule { canonical_key: alias, kind: ModuleKind::Capability });
        },
        Ok(Located::Candidate(p)) => p,
    };
    assert(target_of(raw@, current_path@) == Ok::<Target, ResolutionFailure>(
        Target::Candidate(candidate@),
    ));
    let first = probe(candidate.as_str());
    let step = lookup_next(candidate.as_str(), LookupStage::Exact, first);
    match step {
        LookupStep::Found(key) => {
            let out = Ok(ResolvedModule { canonical_key: key, kind: ModuleKind::FileModule });
            assert(resolved_on(probe, candidate@, first, first, out));
            assert(target_of(raw@, current_path@)->Ok_0->Candidate_0 == candidate@);
            out
        },
        LookupStep::Failed(e) => {
            let out = Err(e);
            assert(resolved_on(probe, candidate@, first, first, out));
            assert(target_of(raw@, current_path@)->Ok_0->Candidate_0 == candidate@);
            out
        },
        LookupStep::Probe { path, stage } => {
            let second = probe(path.as_str());
            let last = lookup_next(candidate.as_str(), stage, second);
            let out = match last {
                LookupStep::Found(key) => Ok(
                    ResolvedModule { canonical_key: key, kind: ModuleKind::FileModule },
                ),
                LookupStep::Failed(e) => Err(e),
                LookupStep::Probe { .. } => Err(ResolutionError::FileNotFound(candidate)),
            };
            assert(resolved_on(probe, candidate@, first, second, out));
            assert(target_of(raw@, current_path@)->Ok_0->Candidate_0 == candidate@);
            out
        },
    }
}

} // verus!
