//! The concurrency manager: what a spawn needs before a thread is started,
//! what a handle accepts, and how a join is made safe to repeat. Starting the
//! thread and running the engine in it is the host's part; every decision
//! around it is made here.

use vstd::prelude::*;
use crate::channel::{Endpoints, TextKind};
use crate::resolver::{relative_target, resolve_path, ResolutionError, ResolutionFailure};
use crate::value::{first_kind, last_kind, last_kind_after_first, ValueKind};

verus! {

/// Why a spawn was refused.
#[derive(Clone, Debug, PartialEq, Eq)]
pub enum SpawnError {
    /// The options are no table.
    NotATable(ValueKind),
    /// The options name neither a source text nor a path.
    MissingSource,
    /// The path of the source does not resolve.
    Resolution(ResolutionError),
}

/// `SpawnError` over sequences of characters.
pub enum SpawnFailure {
    NotATable(ValueKind),
    MissingSource,
    Resolution(ResolutionFailure),
}

impl View for SpawnError {
    type V = SpawnFailure;

    open spec fn view(&self) -> SpawnFailure {
        match self {
            SpawnError::NotATable(kind) => SpawnFailure::NotATable(*kind),
            SpawnError::MissingSource => SpawnFailure::MissingSource,
            SpawnError::Resolution(e) => SpawnFailure::Resolution(e@),
        }
    }
}

/// Where the source of a spawned instance comes from.
#[derive(Clone, Debug, PartialEq, Eq)]
pub enum SpawnSource {
    /// The text itself.
    Inline(String),
    /// A path, relative to the spawning script.
    Path(String),
}

/// `SpawnSource` over sequences of characters.
pub enum SourceView {
    Inline(Seq<char>),
    Path(Seq<char>),
}

impl View for SpawnSource {
    type V = SourceView;

    open spec fn view(&self) -> SourceView {
        match self {
            SpawnSource::Inline(text) => SourceView::Inline(text@),
            SpawnSource::Path(path) => SourceView::Path(path@),
        }
    }
}

/// What the spawned instance starts from.
#[derive(Clone, Debug, PartialEq, Eq)]
pub enum Program {
    /// Evaluate this text.
    Text(String),
    /// Read the file at this path and evaluate its content.
    File(String),
}

/// `Program` over sequences of characters.
pub enum ProgramView {
    Text(Seq<char>),
    File(Seq<char>),
}

impl View for Program {
    type V = ProgramView;

    open spec fn view(&self) -> ProgramView {
        match self {
            Program::Text(text) => ProgramView::Text(text@),
            Program::File(path) => ProgramView::File(path@),
        }
    }
}

/// All that a spawn fixes before the thread starts: the program, the current
/// path that the new instance's context is seeded with, and the path of the
/// spawning script, which the new instance names when it reports an error.
#[derive(Clone, Debug, PartialEq, Eq)]
pub struct SpawnPlan {
    pub program: Program,
    pub child_path: String,
    pub parent_path: String,
}

/// `SpawnPlan` over sequences of characters.
pub struct PlanView {
    pub program: ProgramView,
    pub child_path: Seq<char>,
    pub parent_path: Seq<char>,
}

impl View for SpawnPlan {
    type V = PlanView;

    open spec fn view(&self) -> PlanView {
        PlanView {
            program: self.program@,
            child_path: self.child_path@,
            parent_path: self.parent_path@,
        }
    }
}

/// How the initial data of a spawn reaches the new instance.
#[derive(Clone, Copy, Debug, PartialEq, Eq, Structural)]
pub enum DataShape {
    /// No data.
    Absent,
    /// A structured value: encoded as text by the parent, decoded by the
    /// child.
    Structured,
    /// A byte buffer, copied as it is.
    Bytes,
}

/// How a value is put on a text queue.
#[derive(Clone, Copy, Debug, PartialEq, Eq, Structural)]
pub enum Encoding {
    /// Text is queued as it is.
    PassThrough,
    /// A table is encoded as text first.
    Encode,
}

/// Why a value cannot be put on a text queue.
#[derive(Clone, Copy, Debug, PartialEq, Eq, Structural)]
pub enum SendError {
    /// The call had no argument.
    Nothing,
    /// The value is neither text nor a table.
    NotSendable(ValueKind),
}

/// Why a value cannot be put on a byte queue.
#[derive(Clone, Copy, Debug, PartialEq, Eq, Structural)]
pub enum SendBytesError {
    /// The call had no argument, not even the handle.
    CalledWithNothing,
    /// The handle's place holds a buffer: the method was called as a plain
    /// function.
    HandleIsBuffer,
    /// The handle's place holds something that is no table.
    HandleNotTable(ValueKind),
    /// Nothing follows the handle.
    NoBuffer,
    /// What follows the handle is no buffer.
    NotABuffer(ValueKind),
}

/// Why a join failed.
#[derive(Clone, Copy, Debug, PartialEq, Eq, Structural)]
pub enum ThreadError {
    /// The spawned instance ended with an uncaught error.
    ChildPanicked,
}

/// The source that a spawn's options name: the text when there is one, else
/// the path.
pub open spec fn source_of(src: Option<Seq<char>>, path: Option<Seq<char>>) -> Result<
    SourceView,
    SpawnFailure,
> {
    match src {
        Some(text) => Ok(SourceView::Inline(text)),
        None => match path {
            Some(p) => Ok(SourceView::Path(p)),
            None => Err(SpawnFailure::MissingSource),
        },
    }
}

/// The plan of a spawn from the script at `current`. A path is resolved as a
/// relative request of the spawning script would be; the new instance's
/// current path is that resolved path, so that its own relative requests
/// work. Inline text has no path of its own.
pub open spec fn plan_of(source: SourceView, current: Seq<char>) -> Result<PlanView, SpawnFailure> {
    match source {
        SourceView::Inline(text) => Ok(
            PlanView {
                program: ProgramView::Text(text),
                child_path: Seq::empty(),
                parent_path: current,
            },
        ),
        SourceView::Path(p) => match relative_target(p, current) {
            Ok(resolved) => Ok(
                PlanView {
                    program: ProgramView::File(resolved),
                    child_path: resolved,
                    parent_path: current,
                },
            ),
            Err(e) => Err(SpawnFailure::Resolution(e)),
        },
    }
}

/// How initial data of the kind `kind` reaches the new instance.
pub open spec fn shape_of_data(kind: Option<ValueKind>) -> DataShape {
    match kind {
        Some(ValueKind::Table) => DataShape::Structured,
        Some(ValueKind::Buffer) => DataShape::Bytes,
        _ => DataShape::Absent,
    }
}

/// How the last argument of a send is put on the text queue.
pub open spec fn text_encoding(args: Seq<ValueKind>) -> Result<Encoding, SendError> {
    match last_kind(args) {
        None => Err(SendError::Nothing),
        Some(ValueKind::Text) => Ok(Encoding::PassThrough),
        Some(ValueKind::Table) => Ok(Encoding::Encode),
        Some(kind) => Err(SendError::NotSendable(kind)),
    }
}

/// Whether the arguments of a byte send are a handle followed by a buffer.
pub open spec fn bytes_arguments(args: Seq<ValueKind>) -> Result<(), SendBytesError> {
    match first_kind(args) {
        None => Err(SendBytesError::CalledWithNothing),
        Some(ValueKind::Buffer) => Err(SendBytesError::HandleIsBuffer),
        Some(ValueKind::Table) => match last_kind_after_first(args) {
            None => Err(SendBytesError::NoBuffer),
            Some(ValueKind::Buffer) => Ok(()),
            Some(kind) => Err(SendBytesError::NotABuffer(kind)),
        },
        Some(kind) => Err(SendBytesError::HandleNotTable(kind)),
    }
}

/// What a join comes to. `waited` is nothing when the thread had been joined
/// before, and else says whether the spawned instance ended without an
/// uncaught error.
pub open spec fn join_result(waited: Option<bool>) -> Result<(), ThreadError> {
    match waited {
        None => Ok(()),
        Some(true) => Ok(()),
        Some(false) => Err(ThreadError::ChildPanicked),
    }
}

/// Checks that a spawn's options are a table.
pub fn check_options(kind: ValueKind) -> (out: Result<(), SpawnError>)
    ensures
        out is Ok <==> kind == ValueKind::Table,
        out matches Err(e) ==> e@ == SpawnFailure::NotATable(kind),
{
    match kind {
        ValueKind::Table => Ok(()),
        _ => Err(SpawnError::NotATable(kind)),
    }
}

/// The source that a spawn's options name.
pub fn choose_source(src: Option<String>, path: Option<String>) -> (out: Result<
    SpawnSource,
    SpawnError,
>)
    ensures
        match source_of(
            match src {
                Some(s) => Some(s@),
                None => None,
            },
            match path {
                Some(p) => Some(p@),
                None => None,
            },
        ) {
            Ok(v) => out matches Ok(s) && s@ == v,
            Err(e) => out matches Err(x) && x@ == e,
        },
{
    match src {
        Some(text) => Ok(SpawnSource::Inline(text)),
        None => match path {
            Some(p) => Ok(SpawnSource::Path(p)),
            None => Err(SpawnError::MissingSource),
        },
    }
}

/// The plan of a spawn from the script at `current_path`.
pub fn plan_spawn(source: SpawnSource, current_path: &str) -> (out: Result<SpawnPlan, SpawnError>)
    ensures
        match plan_of(source@, current_path@) {
            Ok(v) => out matches Ok(p) && p@ == v,
            Err(e) => out matches Err(x) && x@ == e,
        },
{
    match source {
        SpawnSource::Inline(text) => Ok(
            SpawnPlan {
                program: Program::Text(text),
                child_path: String::new(),
                parent_path: String::from_str(current_path),
            },
        ),
        SpawnSource::Path(p) => match resolve_path(p.as_str(), current_path) {
            Ok(resolved) => {
                let child_path = resolved.clone();
                Ok(
                    SpawnPlan {
                        program: Program::File(resolved),
                        child_path,
                        parent_path: String::from_str(current_path),
                    },
                )
            },
            Err(e) => Err(SpawnError::Resolution(e)),
        },
    }
}

/// How initial data of the kind `kind` reaches the new instance.
pub fn data_shape(kind: Option<ValueKind>) -> (out: DataShape)
    ensures
        out == shape_of_data(kind),
{
    match kind {
        Some(ValueKind::Table) => DataShape::Structured,
        Some(ValueKind::Buffer) => DataShape::Bytes,
        _ => DataShape::Absent,
    }
}

/// How the last argument of a send is put on the text queue.
pub fn encoding_for(args: &Vec<ValueKind>) -> (out: Result<Encoding, SendError>)
    ensures
        out == text_encoding(args@),
{
    let n = args.len();
    if n == 0 {
        return Err(SendError::Nothing);
    }
    match args[n - 1] {
        ValueKind::Text => Ok(Encoding::PassThrough),
        ValueKind::Table => Ok(Encoding::Encode),
        kind => Err(SendError::NotSendable(kind)),
    }
}

/// The kind under which a text travels: what is passed through is plain,
/// what was encoded is structured.
pub fn kind_of_encoding(encoding: Encoding) -> (kind: TextKind)
    ensures
        kind == match encoding {
            Encoding::PassThrough => TextKind::Plain,
            Encoding::Encode => TextKind::Structured,
        },
{
    match encoding {
        Encoding::PassThrough => TextKind::Plain,
        Encoding::Encode => TextKind::Structured,
    }
}

/// Whether the arguments of a byte send are a handle followed by a buffer.
pub fn check_sendbytes(args: &Vec<ValueKind>) -> (out: Result<(), SendBytesError>)
    ensures
        out == bytes_arguments(args@),
{
    let n = args.len();
    if n == 0 {
        return Err(SendBytesError::CalledWithNothing);
    }
    match args[0] {
        ValueKind::Buffer => Err(SendBytesError::HandleIsBuffer),
        ValueKind::Table => {
            if n == 1 {
                Err(SendBytesError::NoBuffer)
            } else {
                match args[n - 1] {
                    ValueKind::Buffer => Ok(()),
                    kind => Err(SendBytesError::NotABuffer(kind)),
                }
            }
        },
        kind => Err(SendBytesError::HandleNotTable(kind)),
    }
}

/// The place of a thread's join handle: it holds the handle until the first
/// join takes it out, and nothing after.
pub struct JoinSlot<H> {
    handle: Option<H>,
}

impl<H> View for JoinSlot<H> {
    type V = Option<H>;

    closed spec fn view(&self) -> Option<H> {
        self.handle
    }
}

impl<H> JoinSlot<H> {
    /// A slot that holds `handle`.
    pub fn new(handle: H) -> (slot: Self)
        ensures
            slot@ == Some(handle),
    {
        JoinSlot { handle: Some(handle) }
    }

    /// Whether the handle has been taken.
    pub fn is_taken(&self) -> (yes: bool)
        ensures
            yes == (self@ is None),
    {
        self.handle.is_none()
    }

    /// Takes the handle out. The first call gets it; every later call gets
    /// nothing and has nothing to wait for.
    pub fn take(&mut self) -> (out: Option<H>)
        ensures
            out == old(self)@,
            final(self)@ is None,
    {
        let mut taken: Option<H> = None;
        std::mem::swap(&mut taken, &mut self.handle);
        taken
    }
}

/// What a join comes to.
pub fn join_outcome(waited: Option<bool>) -> (out: Result<(), ThreadError>)
    ensures
        out == join_result(waited),
{
    match waited {
        None => Ok(()),
        Some(true) => Ok(()),
        Some(false) => Err(ThreadError::ChildPanicked),
    }
}

/// The slot after a join, and the handle that the join waits on.
pub open spec fn joined<H>(slot: Option<H>) -> (Option<H>, Option<H>) {
    (None, slot)
}

/// Joining twice is safe: the second join finds no handle, whatever the
/// first one found, so it waits for nothing and ends without an error.
pub proof fn lemma_second_join_returns_at_once<H>(slot: Option<H>)
    ensures
        joined(joined(slot).0).1 is None,
        joined(joined(slot).0).0 is None,
        join_result(None) == Ok::<(), ThreadError>(()),
{
}

/// What a script holds of an instance it spawned: the place of the join
/// handle and the parent's side of the four queues.
pub struct ThreadHandle<H> {
    pub join: JoinSlot<H>,
    pub channels: Endpoints,
}

impl<H> ThreadHandle<H> {
    /// A handle for a thread that has just been started.
    pub fn new(handle: H, channels: Endpoints) -> (out: Self)
        ensures
            out.join@ == Some(handle),
            out.channels == channels,
    {
        ThreadHandle { join: JoinSlot::new(handle), channels }
    }

    /// The join handle to wait on, the first time; nothing after that.
    pub fn begin_join(&mut self) -> (out: Option<H>)
        ensures
            out == old(self).join@,
            final(self).join@ is None,
            final(self).channels == old(self).channels,
    {
        self.join.take()
    }
}

} // verus!
