//! The execution context of one interpreter instance and the state machine
//! of `require`. The context owns the current path and the module cache. The
//! host performs the outside work (probing the disk, reading a file,
//! evaluating source) and reports each result back; the context decides what
//! happens next. While a module is evaluated its path is the current path, so
//! that nested requests resolve against it; every way out of a request puts
//! the current path back.

use vstd::prelude::*;
use crate::cache::ModuleCache;
use crate::registry::Capability;
use crate::registry::{is_reserved, registered};
use crate::resolver::{
    locate, lookup_move, lookup_next, resolution, target_of, Located, LookupMove, LookupStage,
    LookupStep, ModuleKind, PathKind, ResolutionError, ResolutionFailure, Target,
};
use crate::text::{chars_eq, to_chars};
use crate::value::ValueKind;

verus! {

/// Why a file could not be read.
#[derive(Clone, Copy, Debug, PartialEq, Eq, Structural)]
pub enum IoFailure {
    NotFound,
    PermissionDenied,
    Other,
}

/// Why a resolved module could not be loaded. `E` is the engine's own error,
/// which is handed on as it came.
#[derive(Clone, Debug, PartialEq, Eq)]
pub enum LoadError<E> {
    ReadError { kind: IoFailure, path: String },
    EvaluationError(E),
}

/// Why a request failed.
#[derive(Clone, Debug, PartialEq, Eq)]
pub enum RequireError<E> {
    /// The request did not resolve.
    Resolution(ResolutionError),
    /// The module resolved but did not load.
    Load(LoadError<E>),
    /// The module is being evaluated further down and requires itself again.
    Cyclic(String),
    /// The report does not answer what the context last asked for.
    OutOfTurn,
    /// What was required is no text.
    NotAPath(ValueKind),
}

/// `RequireError` over sequences of characters.
pub enum RequireFailure<E> {
    NotAPath(ValueKind),
    Resolution(ResolutionFailure),
    Read { kind: IoFailure, path: Seq<char> },
    Evaluation(E),
    Cyclic(Seq<char>),
    OutOfTurn,
}

impl<E> View for RequireError<E> {
    type V = RequireFailure<E>;

    open spec fn view(&self) -> RequireFailure<E> {
        match self {
            RequireError::Resolution(e) => RequireFailure::Resolution(e@),
            RequireError::Load(LoadError::ReadError { kind, path }) => RequireFailure::Read {
                kind: *kind,
                path: path@,
            },
            RequireError::Load(LoadError::EvaluationError(e)) => RequireFailure::Evaluation(*e),
            RequireError::Cyclic(key) => RequireFailure::Cyclic(key@),
            RequireError::OutOfTurn => RequireFailure::OutOfTurn,
            RequireError::NotAPath(kind) => RequireFailure::NotAPath(*kind),
        }
    }
}

/// What the host does next for the request in progress.
#[derive(Clone, Debug, PartialEq, Eq)]
pub enum RequireStep<E> {
    /// Build the capability with `factory` and hand it to the script.
    Capability { alias: String, factory: Capability },
    /// Ask the filesystem what `path` names and report with `on_probe`.
    Probe { path: String },
    /// Hand the script the value that the cache holds under `key`.
    Cached { key: String },
    /// Read the file at `path` and report with `on_read`.
    Read { path: String },
    /// Evaluate `source` under `debug_name` and report with `on_evaluated`.
    Evaluate { source: String, debug_name: String },
    /// The module was evaluated and stored: hand the script the value that
    /// the cache now holds under `key`.
    Loaded { key: String },
    /// Raise the error in the script.
    Failed(RequireError<E>),
}

/// `RequireStep` over sequences of characters.
pub enum RequireMove<E> {
    Capability { alias: Seq<char>, factory: Capability },
    Probe { path: Seq<char> },
    Cached { key: Seq<char> },
    Read { path: Seq<char> },
    Evaluate { source: Seq<char>, debug_name: Seq<char> },
    Loaded { key: Seq<char> },
    Failed(RequireFailure<E>),
}

impl<E> View for RequireStep<E> {
    type V = RequireMove<E>;

    open spec fn view(&self) -> RequireMove<E> {
        match self {
            RequireStep::Capability { alias, factory } => RequireMove::Capability {
                alias: alias@,
                factory: *factory,
            },
            RequireStep::Probe { path } => RequireMove::Probe { path: path@ },
            RequireStep::Cached { key } => RequireMove::Cached { key: key@ },
            RequireStep::Read { path } => RequireMove::Read { path: path@ },
            RequireStep::Evaluate { source, debug_name } => RequireMove::Evaluate {
                source: source@,
                debug_name: debug_name@,
            },
            RequireStep::Loaded { key } => RequireMove::Loaded { key: key@ },
            RequireStep::Failed(e) => RequireMove::Failed(e@),
        }
    }
}

/// Where a request in progress stands.
#[derive(Clone, Copy, Debug, PartialEq, Eq, Structural)]
pub enum Phase {
    /// Waiting for the answer to the probe of this stage.
    Resolving(LookupStage),
    /// Waiting for the content of the file.
    Loading,
    /// The module is being evaluated; it may issue requests of its own.
    Evaluating,
}

/// One request in progress: the path it is about (the candidate while it
/// resolves, the canonical key after) and its phase.
pub struct Frame {
    pub target: String,
    pub phase: Phase,
}

/// `Frame` over sequences of characters.
pub struct FrameView {
    pub target: Seq<char>,
    pub phase: Phase,
}

impl View for Frame {
    type V = FrameView;

    open spec fn view(&self) -> FrameView {
        FrameView { target: self.target@, phase: self.phase }
    }
}

/// The views of a vector of frames.
pub open spec fn frame_views(frames: Seq<Frame>) -> Seq<FrameView> {
    Seq::new(frames.len(), |i: int| frames[i]@)
}

/// The state of an execution context as the contracts see it.
pub struct ContextView<V> {
    pub entry_path: Option<Seq<char>>,
    pub base_path: Seq<char>,
    pub frames: Seq<FrameView>,
    pub cache: Map<Seq<char>, V>,
}

/// A frame whose module has been resolved and is not in the cache yet.
pub open spec fn is_loading(frame: FrameView) -> bool {
    frame.phase == Phase::Loading || frame.phase == Phase::Evaluating
}

impl<V> ContextView<V> {
    /// The path of the script that is running: the module that is being
    /// evaluated innermost, or the base path when none is.
    pub open spec fn current_path(self) -> Seq<char> {
        let n = self.frames.len() as int;
        if n > 0 && self.frames[n - 1].phase == Phase::Evaluating {
            self.frames[n - 1].target
        } else if n > 1 {
            self.frames[n - 2].target
        } else {
            self.base_path
        }
    }

    /// No request waits for an answer: a new one can begin.
    pub open spec fn ready(self) -> bool {
        self.frames.len() == 0 || self.frames.last().phase == Phase::Evaluating
    }

    /// The module under `key` has been resolved and is on its way into the
    /// cache.
    pub open spec fn in_flight(self, key: Seq<char>) -> bool {
        exists|i: int|
            0 <= i < self.frames.len() && is_loading(#[trigger] self.frames[i])
                && self.frames[i].target == key
    }

    /// Only the innermost request can wait for an answer; a module on its
    /// way into the cache is not in it yet; and no module is on its way
    /// twice.
    pub open spec fn consistent(self) -> bool {
        &&& forall|i: int|
            0 <= i < self.frames.len() - 1 ==> (#[trigger] self.frames[i]).phase
                == Phase::Evaluating
        &&& forall|i: int|
            0 <= i < self.frames.len() && is_loading(#[trigger] self.frames[i])
                ==> !self.cache.contains_key(self.frames[i].target)
        &&& forall|i: int, j: int|
            0 <= i < j < self.frames.len() && is_loading(#[trigger] self.frames[i]) && is_loading(
                #[trigger] self.frames[j],
            ) ==> self.frames[i].target != self.frames[j].target
    }

    /// The context with one more request in progress.
    pub open spec fn entered(self, target: Seq<char>, phase: Phase) -> Self {
        ContextView { frames: self.frames.push(FrameView { target, phase }), ..self }
    }

    /// The context without its innermost request.
    pub open spec fn left(self) -> Self {
        ContextView { frames: self.frames.drop_last(), ..self }
    }

    /// The context with its innermost request replaced.
    pub open spec fn moved(self, target: Seq<char>, phase: Phase) -> Self {
        self.left().entered(target, phase)
    }

    /// A request begins. A capability is settled at once, from the alias
    /// alone, and leaves the context as it was; so does a request that does
    /// not resolve. A relative request is resolved against the current path
    /// and waits for its first probe.
    pub open spec fn begin<E>(self, raw: Seq<char>) -> (Self, RequireMove<E>) {
        if !self.ready() {
            (self, RequireMove::Failed(RequireFailure::OutOfTurn))
        } else {
            match target_of(raw, self.current_path()) {
                Err(e) => (self, RequireMove::Failed(RequireFailure::Resolution(e))),
                Ok(Target::Capability { alias, factory }) => (
                    self,
                    RequireMove::Capability { alias, factory },
                ),
                Ok(Target::Candidate(p)) => (
                    self.entered(p, Phase::Resolving(LookupStage::Exact)),
                    RequireMove::Probe { path: p },
                ),
            }
        }
    }

    /// The filesystem answered a probe. The lookup goes on to its next
    /// probe, or ends. A file that is cached is handed out without being
    /// read or evaluated again; one that is being evaluated further down is
    /// refused; any other is read.
    pub open spec fn probed<E>(self, observed: PathKind) -> (Self, RequireMove<E>) {
        if self.frames.len() == 0 {
            (self, RequireMove::Failed(RequireFailure::OutOfTurn))
        } else {
            let top = self.frames.last();
            match top.phase {
                Phase::Resolving(stage) => match lookup_move(top.target, stage, observed) {
                    LookupMove::Probe { path, stage: next } => (
                        self.moved(top.target, Phase::Resolving(next)),
                        RequireMove::Probe { path },
                    ),
                    LookupMove::Failed(e) => (
                        self.left(),
                        RequireMove::Failed(RequireFailure::Resolution(e)),
                    ),
                    LookupMove::Found(key) => if self.cache.contains_key(key) {
                        (self.left(), RequireMove::Cached { key })
                    } else if self.left().in_flight(key) {
                        (self.left(), RequireMove::Failed(RequireFailure::Cyclic(key)))
                    } else {
                        (self.moved(key, Phase::Loading), RequireMove::Read { path: key })
                    },
                },
                _ => (self, RequireMove::Failed(RequireFailure::OutOfTurn)),
            }
        }
    }

    /// The file was read, or could not be. Its content is evaluated under the
    /// canonical key, which becomes the current path; a failure ends the
    /// request and caches nothing.
    pub open spec fn read<E>(self, content: Result<Seq<char>, IoFailure>) -> (
        Self,
        RequireMove<E>,
    ) {
        if self.frames.len() == 0 || self.frames.last().phase != Phase::Loading {
            (self, RequireMove::Failed(RequireFailure::OutOfTurn))
        } else {
            let key = self.frames.last().target;
            match content {
                Ok(source) => (
                    self.moved(key, Phase::Evaluating),
                    RequireMove::Evaluate { source, debug_name: key },
                ),
                Err(kind) => (
                    self.left(),
                    RequireMove::Failed(RequireFailure::Read { kind, path: key }),
                ),
            }
        }
    }

    /// The evaluation ended. A value is stored under the key; an error is
    /// handed on as it came and nothing is stored. Either way the request is
    /// over and the current path is the one from before it.
    pub open spec fn evaluated<E>(self, result: Result<V, E>) -> (Self, RequireMove<E>) {
        if self.frames.len() == 0 || self.frames.last().phase != Phase::Evaluating {
            (self, RequireMove::Failed(RequireFailure::OutOfTurn))
        } else {
            let key = self.frames.last().target;
            match result {
                Ok(value) => (
                    ContextView { cache: self.cache.insert(key, value), ..self.left() },
                    RequireMove::Loaded { key },
                ),
                Err(e) => (self.left(), RequireMove::Failed(RequireFailure::Evaluation(e))),
            }
        }
    }
}

/// Checks that what a script requires is text.
pub fn check_required<E>(kind: ValueKind) -> (out: Result<(), RequireError<E>>)
    ensures
        out is Ok <==> kind == ValueKind::Text,
        out matches Err(e) ==> e@ == RequireFailure::<E>::NotAPath(kind),
{
    match kind {
        ValueKind::Text => Ok(()),
        _ => Err(RequireError::NotAPath(kind)),
    }
}

/// The state of one interpreter instance: the path it was started with, the
/// current path, and the modules it has loaded.
pub struct ExecutionContext<V> {
    entry_path: Option<String>,
    base_path: String,
    frames: Vec<Frame>,
    cache: ModuleCache<V>,
}

impl<V> View for ExecutionContext<V> {
    type V = ContextView<V>;

    closed spec fn view(&self) -> ContextView<V> {
        ContextView {
            entry_path: match self.entry_path {
                Some(p) => Some(p@),
                None => None,
            },
            base_path: self.base_path@,
            frames: frame_views(self.frames@),
            cache: self.cache@,
        }
    }
}

impl<V> ExecutionContext<V> {
    #[verifier::type_invariant]
    spec fn well_formed(self) -> bool {
        self@.consistent()
    }

    /// A context for the script at `path`, which is both its entry path and
    /// its current path. Nothing is cached and no request is in progress.
    pub fn for_entry(path: &str) -> (ctx: Self)
        ensures
            ctx@ == (ContextView::<V> {
                entry_path: Some(path@),
                base_path: path@,
                frames: Seq::empty(),
                cache: Map::empty(),
            }),
    {
        let ctx = ExecutionContext {
            entry_path: Some(String::from_str(path)),
            base_path: String::from_str(path),
            frames: Vec::new(),
            cache: ModuleCache::new(),
        };
        assert(ctx@.frames =~= Seq::empty());
        ctx
    }

    /// A context without an entry path, whose current path is `path`: the
    /// context of a spawned instance or of an inline snippet.
    pub fn seeded(path: &str) -> (ctx: Self)
        ensures
            ctx@ == (ContextView::<V> {
                entry_path: None,
                base_path: path@,
                frames: Seq::empty(),
                cache: Map::empty(),
            }),
    {
        let ctx = ExecutionContext {
            entry_path: None,
            base_path: String::from_str(path),
            frames: Vec::new(),
            cache: ModuleCache::new(),
        };
        assert(ctx@.frames =~= Seq::empty());
        ctx
    }

    /// The path of the script that is running.
    pub fn current_path(&self) -> (path: &str)
        ensures
            path@ == self@.current_path(),
    {
        let n = self.frames.len();
        if n > 0 && self.frames[n - 1].phase == Phase::Evaluating {
            self.frames[n - 1].target.as_str()
        } else if n > 1 {
            self.frames[n - 2].target.as_str()
        } else {
            self.base_path.as_str()
        }
    }

    /// The path the instance was started with, if it was started from one.
    pub fn entry_path(&self) -> (path: Option<&str>)
        ensures
            match self@.entry_path {
                Some(p) => path matches Some(s) && s@ == p,
                None => path is None,
            },
    {
        match &self.entry_path {
            Some(p) => Some(p.as_str()),
            None => None,
        }
    }

    /// Number of requests in progress.
    pub fn depth(&self) -> (n: usize)
        ensures
            n == self@.frames.len(),
    {
        self.frames.len()
    }

    /// The value cached under `key`, if there is one.
    pub fn cached(&self, key: &str) -> (out: Option<&V>)
        ensures
            out == if self@.cache.contains_key(key@) {
                Some(&self@.cache[key@])
            } else {
                None
            },
    {
        self.cache.get(key)
    }

    /// Whether the frames below the innermost hold a module under `key` that
    /// is on its way into the cache.
    fn below_in_flight(&self, key: &str) -> (yes: bool)
        requires
            self.frames@.len() > 0,
        ensures
            yes == self@.left().in_flight(key@),
    {
        let wanted = to_chars(key);
        let n = self.frames.len() - 1;
        let ghost below = self@.left().frames;
        let mut i: usize = 0;
        while i < n
            invariant
                i <= n,
                n == self.frames@.len() - 1,
                wanted@ == key@,
                below == self@.left().frames,
                forall|j: int|
                    0 <= j < i ==> !(is_loading(#[trigger] below[j]) && below[j].target == key@),
            decreases n - i,
        {
            let frame = &self.frames[i];
            assert(below[i as int] == frame@);
            let loading = match frame.phase {
                Phase::Loading => true,
                Phase::Evaluating => true,
                Phase::Resolving(_) => false,
            };
            if loading {
                let have = to_chars(frame.target.as_str());
                if chars_eq(&have, &wanted) {
                    return true;
                }
            }
            i += 1;
        }
        false
    }

    /// Puts one more request in progress.
    fn enter(&mut self, target: String, phase: Phase)
        requires
            old(self)@.entered(target@, phase).consistent(),
        ensures
            final(self)@ == old(self)@.entered(target@, phase),
    {
        let mut frames: Vec<Frame> = Vec::new();
        std::mem::swap(&mut frames, &mut self.frames);
        frames.push(Frame { target, phase });
        assert(frame_views(frames@) =~= old(self)@.frames.push(FrameView { target: target@, phase }));
        self.frames = frames;
    }

    /// Drops the innermost request.
    fn leave(&mut self) -> (frame: Frame)
        requires
            old(self)@.frames.len() > 0,
        ensures
            final(self)@ == old(self)@.left(),
            frame@ == old(self)@.frames.last(),
    {
        proof {
            use_type_invariant(&*self);
        }
        let mut frames: Vec<Frame> = Vec::new();
        std::mem::swap(&mut frames, &mut self.frames);
        let frame = frames.pop().unwrap();
        assert(frame_views(frames@) =~= old(self)@.frames.drop_last());
        proof {
            let after = frame_views(frames@);
            let before = old(self)@.frames;
            assert forall|i: int| 0 <= i < after.len() implies after[i] == before[i] by {}
        }
        self.frames = frames;
        frame
    }

    /// A script asks for `raw`.
    pub fn require<E>(&mut self, raw: &str) -> (step: RequireStep<E>)
        ensures
            (final(self)@, step@) == old(self)@.begin::<E>(raw@),
    {
        proof {
            use_type_invariant(&*self);
        }
        let n = self.frames.len();
        if n > 0 && self.frames[n - 1].phase != Phase::Evaluating {
            return RequireStep::Failed(RequireError::OutOfTurn);
        }
        match locate(raw, self.current_path()) {
            Err(e) => RequireStep::Failed(RequireError::Resolution(e)),
            Ok(Located::Capability { alias, factory }) => RequireStep::Capability {
                alias,
                factory,
            },
            Ok(Located::Candidate(p)) => {
                let path = p.clone();
                proof {
                    let v = old(self)@;
                    let next = v.entered(p@, Phase::Resolving(LookupStage::Exact));
                    assert forall|i: int| 0 <= i < next.frames.len() - 1 implies (
                    #[trigger] next.frames[i]).phase == Phase::Evaluating by {
                        if i == v.frames.len() - 1 {
                            assert(next.frames[i] == v.frames.last());
                        } else {
                            assert(next.frames[i] == v.frames[i]);
                        }
                    }
                    assert forall|i: int|
                        0 <= i < next.frames.len() && is_loading(
                            #[trigger] next.frames[i],
                        ) implies !next.cache.contains_key(next.frames[i].target) by {
                        assert(next.frames[i] == v.frames[i]);
                    }
                    assert forall|i: int, j: int|
                        0 <= i < j < next.frames.len() && is_loading(#[trigger] next.frames[i])
                            && is_loading(#[trigger] next.frames[j]) implies next.frames[i].target
                        != next.frames[j].target by {
                        assert(next.frames[i] == v.frames[i]);
                        assert(next.frames[j] == v.frames[j]);
                    }
                }
                self.enter(p, Phase::Resolving(LookupStage::Exact));
                RequireStep::Probe { path }
            },
        }
    }

    /// The filesystem's answer to the probe that the context asked for.
    pub fn on_probe<E>(&mut self, observed: PathKind) -> (step: RequireStep<E>)
        ensures
            (final(self)@, step@) == old(self)@.probed::<E>(observed),
    {
        proof {
            use_type_invariant(&*self);
        }
        let n = self.frames.len();
        if n == 0 {
            return RequireStep::Failed(RequireError::OutOfTurn);
        }
        let stage = match self.frames[n - 1].phase {
            Phase::Resolving(stage) => stage,
            _ => {
                return RequireStep::Failed(RequireError::OutOfTurn);
            },
        };
        let ghost v = old(self)@;
        let next = lookup_next(self.frames[n - 1].target.as_str(), stage, observed);
        match next {
            LookupStep::Probe { path, stage: next_stage } => {
                let frame = self.leave();
                proof {
                    lemma_reenter_resolving(v, frame.target@, Phase::Resolving(next_stage));
                }
                self.enter(frame.target, Phase::Resolving(next_stage));
                RequireStep::Probe { path }
            },
            LookupStep::Failed(e) => {
                self.leave();
                RequireStep::Failed(RequireError::Resolution(e))
            },
            LookupStep::Found(key) => {
                if self.cache.contains(key.as_str()) {
                    self.leave();
                    RequireStep::Cached { key }
                } else if self.below_in_flight(key.as_str()) {
                    self.leave();
                    RequireStep::Failed(RequireError::Cyclic(key))
                } else {
                    self.leave();
                    proof {
                        lemma_enter_loading(v, key@);
                    }
                    let path = key.clone();
                    self.enter(key, Phase::Loading);
                    RequireStep::Read { path }
                }
            },
        }
    }

    /// The content of the file that the context asked for, or why it could
    /// not be read.
    pub fn on_read<E>(&mut self, content: Result<String, IoFailure>) -> (step: RequireStep<E>)
        ensures
            (final(self)@, step@) == old(self)@.read::<E>(
                match content {
                    Ok(source) => Ok(source@),
                    Err(kind) => Err(kind),
                },
            ),
    {
        proof {
            use_type_invariant(&*self);
        }
        let n = self.frames.len();
        if n == 0 || self.frames[n - 1].phase != Phase::Loading {
            return RequireStep::Failed(RequireError::OutOfTurn);
        }
        let ghost v = old(self)@;
        let frame = self.leave();
        match content {
            Ok(source) => {
                proof {
                    lemma_reenter_loading(v, Phase::Evaluating);
                }
                let debug_name = frame.target.clone();
                self.enter(frame.target, Phase::Evaluating);
                RequireStep::Evaluate { source, debug_name }
            },
            Err(kind) => RequireStep::Failed(
                RequireError::Load(LoadError::ReadError { kind, path: frame.target }),
            ),
        }
    }

    /// The result of the evaluation that the context asked for.
    pub fn on_evaluated<E>(&mut self, result: Result<V, E>) -> (step: RequireStep<E>)
        ensures
            (final(self)@, step@) == old(self)@.evaluated::<E>(result),
    {
        proof {
            use_type_invariant(&*self);
        }
        let n = self.frames.len();
        if n == 0 || self.frames[n - 1].phase != Phase::Evaluating {
            return RequireStep::Failed(RequireError::OutOfTurn);
        }
        let ghost v = old(self)@;
        let frame = self.leave();
        match result {
            Ok(value) => {
                let key = frame.target.clone();
                proof {
                    assert(is_loading(v.frames.last()));
                    assert(!v.cache.contains_key(key@));
                    let next = ContextView { cache: v.cache.insert(key@, value), ..v.left() };
                    assert forall|i: int|
                        0 <= i < next.frames.len() && is_loading(
                            #[trigger] next.frames[i],
                        ) implies !next.cache.contains_key(next.frames[i].target) by {
                        assert(next.frames[i] == v.frames[i]);
                        assert(is_loading(v.frames[v.frames.len() - 1]));
                    }
                }
                let mut cache: ModuleCache<V> = ModuleCache::new();
                std::mem::swap(&mut cache, &mut self.cache);
                cache.insert(frame.target, value);
                self.cache = cache;
                RequireStep::Loaded { key }
            },
            Err(e) => RequireStep::Failed(RequireError::Load(LoadError::EvaluationError(e))),
        }
    }
}

/// Replacing the phase of a resolving innermost request by another resolving
/// phase keeps the context consistent.
proof fn lemma_reenter_resolving<V>(v: ContextView<V>, target: Seq<char>, phase: Phase)
    requires
        v.consistent(),
        v.frames.len() > 0,
        v.frames.last().phase is Resolving,
        phase is Resolving,
    ensures
        v.left().entered(target, phase).consistent(),
{
    let next = v.left().entered(target, phase);
    assert forall|i: int| 0 <= i < next.frames.len() - 1 implies (#[trigger] next.frames[i]).phase
        == Phase::Evaluating by {
        assert(next.frames[i] == v.frames[i]);
    }
    assert forall|i: int|
        0 <= i < next.frames.len() && is_loading(
            #[trigger] next.frames[i],
        ) implies !next.cache.contains_key(next.frames[i].target) by {
        assert(next.frames[i] == v.frames[i]);
    }
    assert forall|i: int, j: int|
        0 <= i < j < next.frames.len() && is_loading(#[trigger] next.frames[i]) && is_loading(
            #[trigger] next.frames[j],
        ) implies next.frames[i].target != next.frames[j].target by {
        assert(next.frames[i] == v.frames[i]);
        assert(next.frames[j] == v.frames[j]);
    }
}

/// A resolved module that is neither cached nor on its way can take the
/// place of the innermost request.
proof fn lemma_enter_loading<V>(v: ContextView<V>, key: Seq<char>)
    requires
        v.consistent(),
        v.frames.len() > 0,
        v.frames.last().phase is Resolving,
        !v.cache.contains_key(key),
        !v.left().in_flight(key),
    ensures
        v.left().entered(key, Phase::Loading).consistent(),
{
    let next = v.left().entered(key, Phase::Loading);
    let below = v.left();
    assert forall|i: int| 0 <= i < next.frames.len() - 1 implies (#[trigger] next.frames[i]).phase
        == Phase::Evaluating by {
        assert(next.frames[i] == v.frames[i]);
    }
    assert forall|i: int|
        0 <= i < next.frames.len() && is_loading(
            #[trigger] next.frames[i],
        ) implies !next.cache.contains_key(next.frames[i].target) by {
        if i < next.frames.len() - 1 {
            assert(next.frames[i] == v.frames[i]);
        }
    }
    assert forall|i: int, j: int|
        0 <= i < j < next.frames.len() && is_loading(#[trigger] next.frames[i]) && is_loading(
            #[trigger] next.frames[j],
        ) implies next.frames[i].target != next.frames[j].target by {
        assert(next.frames[i] == v.frames[i]);
        if j < next.frames.len() - 1 {
            assert(next.frames[j] == v.frames[j]);
        } else {
            assert(below.frames[i] == v.frames[i]);
            if next.frames[i].target == key {
                assert(below.in_flight(key));
            }
        }
    }
}

/// A loading innermost request keeps the context consistent when it starts
/// to evaluate.
proof fn lemma_reenter_loading<V>(v: ContextView<V>, phase: Phase)
    requires
        v.consistent(),
        v.frames.len() > 0,
        v.frames.last().phase == Phase::Loading,
        phase == Phase::Evaluating,
    ensures
        v.left().entered(v.frames.last().target, phase).consistent(),
{
    let key = v.frames.last().target;
    let next = v.left().entered(key, phase);
    let n = v.frames.len() - 1;
    assert forall|i: int| 0 <= i < next.frames.len() - 1 implies (#[trigger] next.frames[i]).phase
        == Phase::Evaluating by {
        assert(next.frames[i] == v.frames[i]);
    }
    assert forall|i: int|
        0 <= i < next.frames.len() && is_loading(
            #[trigger] next.frames[i],
        ) implies !next.cache.contains_key(next.frames[i].target) by {
        if i < n {
            assert(next.frames[i] == v.frames[i]);
        } else {
            assert(is_loading(v.frames[n]));
        }
    }
    assert forall|i: int, j: int|
        0 <= i < j < next.frames.len() && is_loading(#[trigger] next.frames[i]) && is_loading(
            #[trigger] next.frames[j],
        ) implies next.frames[i].target != next.frames[j].target by {
        assert(next.frames[i] == v.frames[i]);
        if j < n {
            assert(next.frames[j] == v.frames[j]);
        } else {
            assert(is_loading(v.frames[i]));
            assert(is_loading(v.frames[n]));
        }
    }
}

/// A state of the machine together with the move it last made.
pub type Turn<V, E> = (ContextView<V>, RequireMove<E>);

/// The turn that follows when a pending probe is answered by `fs`; any other
/// turn stays.
pub open spec fn answer_probe<V, E>(turn: Turn<V, E>, fs: spec_fn(Seq<char>) -> PathKind) -> Turn<
    V,
    E,
> {
    match turn.1 {
        RequireMove::Probe { path } => turn.0.probed::<E>(fs(path)),
        _ => turn,
    }
}

/// The turn that follows when a pending read is answered by `content`; any
/// other turn stays.
pub open spec fn answer_read<V, E>(turn: Turn<V, E>, content: Result<Seq<char>, IoFailure>) -> Turn<
    V,
    E,
> {
    match turn.1 {
        RequireMove::Read { .. } => turn.0.read::<E>(content),
        _ => turn,
    }
}

/// The turn that follows when a pending evaluation ends with `result`; any
/// other turn stays.
pub open spec fn answer_evaluation<V, E>(turn: Turn<V, E>, result: Result<V, E>) -> Turn<V, E> {
    match turn.1 {
        RequireMove::Evaluate { .. } => turn.0.evaluated::<E>(result),
        _ => turn,
    }
}

impl<V> ContextView<V> {
    /// One request from its beginning to its end, for a module whose
    /// evaluation asks for no module itself: the probes are answered by the
    /// filesystem `fs`, the read by `content`, the evaluation by `result`.
    pub open spec fn request<E>(
        self,
        raw: Seq<char>,
        fs: spec_fn(Seq<char>) -> PathKind,
        content: Result<Seq<char>, IoFailure>,
        result: Result<V, E>,
    ) -> Turn<V, E> {
        answer_evaluation(
            answer_read(answer_probe(answer_probe(self.begin::<E>(raw), fs), fs), content),
            result,
        )
    }
}

/// A cache that holds all that `before` held, under the same keys.
pub open spec fn extends<V>(after: Map<Seq<char>, V>, before: Map<Seq<char>, V>) -> bool {
    forall|key: Seq<char>| #[trigger]
        before.contains_key(key) ==> after.contains_key(key) && after[key] == before[key]
}

/// Taking the innermost request off a context that has just taken it on
/// gives the context back.
pub proof fn lemma_entered_left<V>(v: ContextView<V>, target: Seq<char>, phase: Phase)
    ensures
        v.entered(target, phase).left() == v,
{
    assert(v.frames.push(FrameView { target, phase }).drop_last() =~= v.frames);
}

/// Every step keeps the context consistent, keeps what the cache holds, and
/// leaves the base path and the entry path alone.
pub proof fn lemma_steps_preserve<V, E>(
    v: ContextView<V>,
    raw: Seq<char>,
    observed: PathKind,
    content: Result<Seq<char>, IoFailure>,
    result: Result<V, E>,
)
    requires
        v.consistent(),
    ensures
        v.begin::<E>(raw).0.consistent(),
        v.probed::<E>(observed).0.consistent(),
        v.read::<E>(content).0.consistent(),
        v.evaluated::<E>(result).0.consistent(),
        extends(v.begin::<E>(raw).0.cache, v.cache),
        extends(v.probed::<E>(observed).0.cache, v.cache),
        extends(v.read::<E>(content).0.cache, v.cache),
        extends(v.evaluated::<E>(result).0.cache, v.cache),
        v.begin::<E>(raw).0.base_path == v.base_path,
        v.probed::<E>(observed).0.base_path == v.base_path,
        v.read::<E>(content).0.base_path == v.base_path,
        v.evaluated::<E>(result).0.base_path == v.base_path,
{
    let n = v.frames.len() as int;
    assert(v.begin::<E>(raw).0.consistent()) by {
        let next = v.begin::<E>(raw).0;
        if next != v {
            assert forall|i: int| 0 <= i < next.frames.len() - 1 implies (
            #[trigger] next.frames[i]).phase == Phase::Evaluating by {
                assert(next.frames[i] == v.frames[i]);
                if i == n - 1 {
                    assert(v.frames.last() == v.frames[i]);
                }
            }
            assert forall|i: int|
                0 <= i < next.frames.len() && is_loading(
                    #[trigger] next.frames[i],
                ) implies !next.cache.contains_key(next.frames[i].target) by {
                assert(next.frames[i] == v.frames[i]);
            }
            assert forall|i: int, j: int|
                0 <= i < j < next.frames.len() && is_loading(#[trigger] next.frames[i])
                    && is_loading(#[trigger] next.frames[j]) implies next.frames[i].target
                != next.frames[j].target by {
                assert(next.frames[i] == v.frames[i]);
                assert(next.frames[j] == v.frames[j]);
            }
        }
    }
    if n > 0 {
        let next = v.left();
        assert forall|i: int| 0 <= i < next.frames.len() implies #[trigger] next.frames[i]
            == v.frames[i] by {}
        assert(next.consistent());
    }
    assert(v.probed::<E>(observed).0.consistent()) by {
        if n > 0 {
            let top = v.frames.last();
            match top.phase {
                Phase::Resolving(stage) => match lookup_move(top.target, stage, observed) {
                    LookupMove::Probe { path, stage: next } => {
                        lemma_reenter_resolving(v, top.target, Phase::Resolving(next));
                    },
                    LookupMove::Failed(e) => {},
                    LookupMove::Found(key) => {
                        if !v.cache.contains_key(key) && !v.left().in_flight(key) {
                            lemma_enter_loading(v, key);
                        }
                    },
                },
                _ => {},
            }
        }
    }
    assert(v.read::<E>(content).0.consistent()) by {
        if n > 0 && v.frames.last().phase == Phase::Loading {
            lemma_reenter_loading(v, Phase::Evaluating);
        }
    }
    assert(v.evaluated::<E>(result).0.consistent()) by {
        if n > 0 && v.frames.last().phase == Phase::Evaluating {
            let next = v.evaluated::<E>(result).0;
            assert(is_loading(v.frames[n - 1]));
            assert forall|i: int| 0 <= i < next.frames.len() implies #[trigger] next.frames[i]
                == v.frames[i] by {}
            assert forall|i: int|
                0 <= i < next.frames.len() && is_loading(
                    #[trigger] next.frames[i],
                ) implies !next.cache.contains_key(next.frames[i].target) by {
                assert(next.frames[i] == v.frames[i]);
            }
        }
    }
    assert(extends(v.evaluated::<E>(result).0.cache, v.cache)) by {
        if n > 0 {
            assert(v.frames.last() == v.frames[n - 1]);
        }
    }
}

/// Whether a move ends the request that it belongs to.
pub open spec fn ends_request<E>(m: RequireMove<E>) -> bool {
    match m {
        RequireMove::Capability { .. } => true,
        RequireMove::Cached { .. } => true,
        RequireMove::Loaded { .. } => true,
        RequireMove::Failed(RequireFailure::OutOfTurn) => false,
        RequireMove::Failed(_) => true,
        _ => false,
    }
}

/// A report touches the innermost request only. When it ends the request,
/// the requests in progress are those from before the request began, and so
/// is the current path, whatever was required in between and however the
/// request ended. While a module is evaluated, its key is the current path.
pub proof fn lemma_reports_move_the_innermost_request<V, E>(
    v: ContextView<V>,
    observed: PathKind,
    content: Result<Seq<char>, IoFailure>,
    result: Result<V, E>,
)
    requires
        v.frames.len() > 0,
    ensures
        ends_request(v.probed::<E>(observed).1) ==> v.probed::<E>(observed).0.frames
            == v.frames.drop_last(),
        ends_request(v.read::<E>(content).1) ==> v.read::<E>(content).0.frames
            == v.frames.drop_last(),
        ends_request(v.evaluated::<E>(result).1) ==> v.evaluated::<E>(result).0.frames
            == v.frames.drop_last(),
        v.probed::<E>(observed).0.frames.drop_last() == v.frames.drop_last() || v.probed::<E>(
            observed,
        ).0.frames == v.frames.drop_last(),
        v.read::<E>(content).0.frames.drop_last() == v.frames.drop_last() || v.read::<E>(
            content,
        ).0.frames == v.frames.drop_last(),
        v.evaluated::<E>(result).0.frames.drop_last() == v.frames.drop_last() || v.evaluated::<E>(
            result,
        ).0.frames == v.frames.drop_last(),
        v.read::<E>(content).1 matches RequireMove::Evaluate { debug_name, .. } ==> v.read::<E>(
            content,
        ).0.current_path() == debug_name,
{
    let below = v.frames.drop_last();
    assert forall|target: Seq<char>, phase: Phase| #[trigger]
        below.push(FrameView { target, phase }).drop_last() == below by {
        assert(below.push(FrameView { target, phase }).drop_last() =~= below);
    }
    match v.read::<E>(content).1 {
        RequireMove::Evaluate { debug_name, .. } => {
            let after = v.read::<E>(content).0;
            assert(after.frames.last() == FrameView {
                target: debug_name,
                phase: Phase::Evaluating,
            });
        },
        _ => {},
    }
}

/// A request that begins puts itself on top of the requests in progress and
/// changes none of them; one that is settled at once changes nothing.
pub proof fn lemma_begin_enters_on_top<V, E>(v: ContextView<V>, raw: Seq<char>)
    ensures
        v.begin::<E>(raw).1 is Probe ==> v.begin::<E>(raw).0.frames.drop_last() == v.frames,
        !(v.begin::<E>(raw).1 is Probe) ==> v.begin::<E>(raw).0 == v,
{
    match v.begin::<E>(raw).1 {
        RequireMove::Probe { path } => {
            let after = v.begin::<E>(raw).0;
            assert(after.frames.drop_last() =~= v.frames);
        },
        _ => {},
    }
}

/// What a request comes to. Whatever the filesystem holds and however the
/// read and the evaluation end, the request ends with the frames, and so the
/// current path, that it began with. A request that does not resolve fails
/// with the resolver's error; a capability is built from its alias; a cached
/// module is handed out as it is, with no read and no evaluation; a module
/// that is being evaluated further down is refused; a failed read or a
/// failed evaluation is reported and caches nothing; and a module that
/// evaluates is stored under its canonical key.
pub proof fn lemma_request_outcome<V, E>(
    v: ContextView<V>,
    raw: Seq<char>,
    fs: spec_fn(Seq<char>) -> PathKind,
    content: Result<Seq<char>, IoFailure>,
    result: Result<V, E>,
)
    requires
        v.consistent(),
        v.ready(),
    ensures
        ({
            let (after, last) = v.request::<E>(raw, fs, content, result);
            &&& after.frames == v.frames
            &&& after.base_path == v.base_path
            &&& after.entry_path == v.entry_path
            &&& after.current_path() == v.current_path()
            &&& after.consistent()
            &&& match resolution(raw, v.current_path(), fs) {
                Err(e) => last == RequireMove::<E>::Failed(RequireFailure::Resolution(e))
                    && after.cache == v.cache,
                Ok((key, ModuleKind::Capability)) => registered(key) is Some && last
                    == (RequireMove::<E>::Capability { alias: key, factory: registered(key)->0 })
                    && after.cache == v.cache,
                Ok((key, ModuleKind::FileModule)) => if v.cache.contains_key(key) {
                    last == (RequireMove::<E>::Cached { key }) && after.cache == v.cache
                } else if v.in_flight(key) {
                    last == RequireMove::<E>::Failed(RequireFailure::Cyclic(key)) && after.cache
                        == v.cache
                } else {
                    match content {
                        Err(kind) => last == RequireMove::<E>::Failed(
                            RequireFailure::Read { kind, path: key },
                        ) && after.cache == v.cache,
                        Ok(source) => match result {
                            Ok(value) => last == (RequireMove::<E>::Loaded { key }) && after.cache
                                == v.cache.insert(key, value),
                            Err(e) => last == RequireMove::<E>::Failed(
                                RequireFailure::Evaluation(e),
                            ) && after.cache == v.cache,
                        },
                    }
                },
            }
        }),
{
    let current = v.current_path();
    match target_of(raw, current) {
        Err(e) => {},
        Ok(Target::Capability { alias, factory }) => {},
        Ok(Target::Candidate(p)) => {
            let v1 = v.entered(p, Phase::Resolving(LookupStage::Exact));
            lemma_entered_left(v, p, Phase::Resolving(LookupStage::Exact));
            assert(v1.frames.last() == FrameView {
                target: p,
                phase: Phase::Resolving(LookupStage::Exact),
            });
            let t2 = v1.probed::<E>(fs(p));
            let settled: Turn<V, E> = match lookup_move(p, LookupStage::Exact, fs(p)) {
                LookupMove::Probe { path, stage: next } => {
                    let v2 = v1.moved(p, Phase::Resolving(next));
                    lemma_entered_left(v1.left(), p, Phase::Resolving(next));
                    assert(v2.left() == v);
                    assert(v2.frames.last() == FrameView {
                        target: p,
                        phase: Phase::Resolving(next),
                    });
                    v2.probed::<E>(fs(path))
                },
                _ => t2,
            };
            assert(settled == answer_probe(answer_probe(v.begin::<E>(raw), fs), fs));
            match settled.1 {
                RequireMove::Read { path: key } => {
                    let v3 = v.entered(key, Phase::Loading);
                    assert(settled.0 == v3);
                    lemma_entered_left(v, key, Phase::Loading);
                    assert(v3.frames.last() == FrameView { target: key, phase: Phase::Loading });
                    match content {
                        Ok(source) => {
                            let v4 = v.entered(key, Phase::Evaluating);
                            assert(v3.read::<E>(content).0 == v4);
                            lemma_entered_left(v, key, Phase::Evaluating);
                            assert(v4.frames.last() == FrameView {
                                target: key,
                                phase: Phase::Evaluating,
                            });
                        },
                        Err(kind) => {},
                    }
                },
                _ => {},
            }
        },
    }
    let (after, last) = v.request::<E>(raw, fs, content, result);
    assert(after.frames == v.frames);
    lemma_request_consistent::<V, E>(v, raw, fs, content, result);
}

/// A request leaves a consistent context consistent.
pub proof fn lemma_request_consistent<V, E>(
    v: ContextView<V>,
    raw: Seq<char>,
    fs: spec_fn(Seq<char>) -> PathKind,
    content: Result<Seq<char>, IoFailure>,
    result: Result<V, E>,
)
    requires
        v.consistent(),
    ensures
        v.request::<E>(raw, fs, content, result).0.consistent(),
        extends(v.request::<E>(raw, fs, content, result).0.cache, v.cache),
{
    let t1 = v.begin::<E>(raw);
    lemma_steps_preserve::<V, E>(v, raw, PathKind::Missing, content, result);
    let t2 = answer_probe(t1, fs);
    match t1.1 {
        RequireMove::Probe { path } => {
            lemma_steps_preserve::<V, E>(t1.0, raw, fs(path), content, result);
        },
        _ => {},
    }
    let t3 = answer_probe(t2, fs);
    match t2.1 {
        RequireMove::Probe { path } => {
            lemma_steps_preserve::<V, E>(t2.0, raw, fs(path), content, result);
        },
        _ => {},
    }
    let t4 = answer_read(t3, content);
    lemma_steps_preserve::<V, E>(t3.0, raw, PathKind::Missing, content, result);
    lemma_steps_preserve::<V, E>(t4.0, raw, PathKind::Missing, content, result);
}

/// Requiring a module a second time reads nothing and evaluates nothing: once
/// a request has loaded a module, the same request from the same place is
/// answered from the cache with the value that was stored, however a read or
/// an evaluation would end then, and the context stays as it is.
pub proof fn lemma_second_request_is_cached<V, E>(
    v: ContextView<V>,
    raw: Seq<char>,
    fs: spec_fn(Seq<char>) -> PathKind,
    content: Result<Seq<char>, IoFailure>,
    result: Result<V, E>,
    later_content: Result<Seq<char>, IoFailure>,
    later_result: Result<V, E>,
)
    requires
        v.consistent(),
        v.ready(),
        v.request::<E>(raw, fs, content, result).1 is Loaded,
    ensures
        ({
            let (loaded, first) = v.request::<E>(raw, fs, content, result);
            let (after, second) = loaded.request::<E>(raw, fs, later_content, later_result);
            &&& result is Ok
            &&& after == loaded
            &&& second == (RequireMove::<E>::Cached { key: first->Loaded_key })
            &&& loaded.cache.contains_key(first->Loaded_key)
            &&& loaded.cache[first->Loaded_key] == result->Ok_0
        }),
{
    lemma_request_outcome::<V, E>(v, raw, fs, content, result);
    let (loaded, first) = v.request::<E>(raw, fs, content, result);
    assert(loaded.ready());
    lemma_request_outcome::<V, E>(loaded, raw, fs, later_content, later_result);
    let (after, second) = loaded.request::<E>(raw, fs, later_content, later_result);
    assert(after.cache == loaded.cache);
    assert(after == loaded);
}

/// A module that several scripts require is loaded once: whoever asks for a
/// module that the cache holds, from whatever path and under whatever
/// spelling that resolves to its key, gets the cached value, and nothing is
/// read or evaluated.
pub proof fn lemma_shared_module_is_loaded_once<V, E>(
    v: ContextView<V>,
    raw: Seq<char>,
    fs: spec_fn(Seq<char>) -> PathKind,
    content: Result<Seq<char>, IoFailure>,
    result: Result<V, E>,
)
    requires
        v.consistent(),
        v.ready(),
        resolution(raw, v.current_path(), fs) matches Ok((key, ModuleKind::FileModule))
            && v.cache.contains_key(key),
    ensures
        v.request::<E>(raw, fs, content, result) == (
            v,
            RequireMove::<E>::Cached { key: resolution(raw, v.current_path(), fs)->Ok_0.0 },
        ),
{
    lemma_request_outcome::<V, E>(v, raw, fs, content, result);
    let (after, last) = v.request::<E>(raw, fs, content, result);
    assert(after == v);
}

/// A capability is resolved from its alias alone. The request ends at once,
/// asks for no probe and no read, and leaves the context as it was; asked
/// again, it gives the same factory again.
pub proof fn lemma_capability_request<V, E>(
    v: ContextView<V>,
    raw: Seq<char>,
    fs: spec_fn(Seq<char>) -> PathKind,
    content: Result<Seq<char>, IoFailure>,
    result: Result<V, E>,
)
    requires
        v.ready(),
        is_reserved(raw),
    ensures
        v.request::<E>(raw, fs, content, result) == v.begin::<E>(raw),
        v.begin::<E>(raw).0 == v,
        v.begin::<E>(raw).1 == match registered(raw) {
            Some(factory) => RequireMove::<E>::Capability { alias: raw, factory },
            None => RequireMove::<E>::Failed(
                RequireFailure::Resolution(ResolutionFailure::UnknownCapability(raw)),
            ),
        },
        v.begin::<E>(raw).0.begin::<E>(raw) == v.begin::<E>(raw),
{
}

} // verus!
