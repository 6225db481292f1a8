//! The decisions of the filesystem capability: which byte range a read may
//! take, what a failed read is called, where a rename leads, and how paths
//! are put together. The reads and writes themselves are the host's.

use vstd::prelude::*;
use crate::context::IoFailure;
use crate::path::{
    dir_len, file_name, has_file_name, is_separator, parent_dir, parent_len, parent_of,
};
use crate::resolver::PathKind;
use crate::text::{chars_start_with, from_chars, to_chars, views_of};
use crate::value::{FlagArg, ValueKind};

verus! {

/// The three numbers of a ranged read.
#[derive(Clone, Copy, Debug, PartialEq, Eq, Structural)]
pub enum Field {
    BufferOffset,
    FileOffset,
    Count,
}

/// What a script passed where a whole number is expected.
#[derive(Clone, Copy, Debug, PartialEq, Eq, Structural)]
pub enum IntegerArg {
    /// A whole number.
    Value(i32),
    /// An explicit nil.
    Nil,
    /// Nothing at all.
    Missing,
    /// A floating-point number, by what the host found of it: the whole
    /// number that is left when its fraction is cut off, and whether it had
    /// a fraction.
    Float { truncated: i32, fraction: bool },
    /// A value of another kind.
    Wrong(ValueKind),
}

/// Why a ranged read was refused.
#[derive(Clone, Copy, Debug, PartialEq, Eq, Structural)]
pub enum ReadError {
    /// The argument is no number.
    NotANumber { field: Field, got: ValueKind },
    /// The argument is a floating-point number without a fraction.
    NotWhole(Field),
    /// The argument was left out.
    Missing(Field),
    /// The count was given as nil; it has no default.
    CountIsNil,
    /// The argument is below zero.
    Negative(Field),
    /// The bytes would not fit into the buffer behind the offset: the place
    /// that they would end at, the buffer's size, and how many they are.
    BufferTooSmall { needed: u64, size: u64, count: u64 },
    /// The range ends behind the end of the file.
    PastEndOfFile { needed: u64, size: u64 },
}

/// The numbers of a ranged read once they are known to be whole and not
/// negative.
#[derive(Clone, Copy, Debug, PartialEq, Eq, Structural)]
pub struct ReadRequest {
    pub buffer_offset: u32,
    pub file_offset: u32,
    pub count: u32,
}

/// A ranged read that fits both the buffer and the file.
#[derive(Clone, Copy, Debug, PartialEq, Eq, Structural)]
pub struct ReadPlan {
    pub buffer_offset: usize,
    pub file_offset: u64,
    pub count: usize,
}

/// The whole number that an argument stands for. An offset that is nil
/// counts as zero; a count has no default. A floating-point number with a
/// fraction stands for the whole number that is left without it; one
/// without a fraction is refused.
pub open spec fn integer_of(arg: IntegerArg, field: Field) -> Result<i32, ReadError> {
    match arg {
        IntegerArg::Value(n) => Ok(n),
        IntegerArg::Nil => if field == Field::Count {
            Err(ReadError::CountIsNil)
        } else {
            Ok(0i32)
        },
        IntegerArg::Missing => Err(ReadError::Missing(field)),
        IntegerArg::Float { truncated, fraction } => if fraction {
            Ok(truncated)
        } else {
            Err(ReadError::NotWhole(field))
        },
        IntegerArg::Wrong(kind) => Err(ReadError::NotANumber { field, got: kind }),
    }
}

/// The request that the three arguments stand for. The kinds are checked
/// first, in the order buffer offset, file offset, count; the signs after,
/// in the same order.
pub open spec fn request_of(buffer_offset: IntegerArg, file_offset: IntegerArg, count: IntegerArg)
    -> Result<ReadRequest, ReadError> {
    match integer_of(buffer_offset, Field::BufferOffset) {
        Err(e) => Err(e),
        Ok(b) => match integer_of(file_offset, Field::FileOffset) {
            Err(e) => Err(e),
            Ok(f) => match integer_of(count, Field::Count) {
                Err(e) => Err(e),
                Ok(c) => if b < 0 {
                    Err(ReadError::Negative(Field::BufferOffset))
                } else if f < 0 {
                    Err(ReadError::Negative(Field::FileOffset))
                } else if c < 0 {
                    Err(ReadError::Negative(Field::Count))
                } else {
                    Ok(ReadRequest { buffer_offset: b as u32, file_offset: f as u32, count: c as u32 })
                },
            },
        },
    }
}

/// The plan of a request against a buffer of `buffer_size` bytes and a file
/// of `file_size` bytes: the range must fit the buffer behind the offset,
/// and must end within the file. The buffer is looked at first.
pub open spec fn plan_of(request: ReadRequest, buffer_size: u64, file_size: u64) -> Result<
    ReadPlan,
    ReadError,
> {
    if request.buffer_offset + request.count > buffer_size {
        Err(
            ReadError::BufferTooSmall {
                needed: (request.buffer_offset + request.count) as u64,
                size: buffer_size,
                count: request.count as u64,
            },
        )
    } else if request.file_offset + request.count > file_size {
        Err(
            ReadError::PastEndOfFile {
                needed: (request.file_offset + request.count) as u64,
                size: file_size,
            },
        )
    } else {
        Ok(
            ReadPlan {
                buffer_offset: request.buffer_offset as usize,
                file_offset: request.file_offset as u64,
                count: request.count as usize,
            },
        )
    }
}

/// The whole number that an argument stands for.
fn integer_argument(arg: IntegerArg, field: Field) -> (out: Result<i32, ReadError>)
    ensures
        out == integer_of(arg, field),
{
    match arg {
        IntegerArg::Value(n) => Ok(n),
        IntegerArg::Nil => if field == Field::Count {
            Err(ReadError::CountIsNil)
        } else {
            Ok(0)
        },
        IntegerArg::Missing => Err(ReadError::Missing(field)),
        IntegerArg::Float { truncated, fraction } => if fraction {
            Ok(truncated)
        } else {
            Err(ReadError::NotWhole(field))
        },
        IntegerArg::Wrong(kind) => Err(ReadError::NotANumber { field, got: kind }),
    }
}

/// Checks the three numbers of a ranged read.
pub fn check_read_arguments(buffer_offset: IntegerArg, file_offset: IntegerArg, count: IntegerArg)
    -> (out: Result<ReadRequest, ReadError>)
    ensures
        out == request_of(buffer_offset, file_offset, count),
{
    let b = match integer_argument(buffer_offset, Field::BufferOffset) {
        Ok(b) => b,
        Err(e) => {
            return Err(e);
        },
    };
    let f = match integer_argument(file_offset, Field::FileOffset) {
        Ok(f) => f,
        Err(e) => {
            return Err(e);
        },
    };
    let c = match integer_argument(count, Field::Count) {
        Ok(c) => c,
        Err(e) => {
            return Err(e);
        },
    };
    if b < 0 {
        Err(ReadError::Negative(Field::BufferOffset))
    } else if f < 0 {
        Err(ReadError::Negative(Field::FileOffset))
    } else if c < 0 {
        Err(ReadError::Negative(Field::Count))
    } else {
        Ok(ReadRequest { buffer_offset: b as u32, file_offset: f as u32, count: c as u32 })
    }
}

/// Fits a request to a buffer of `buffer_size` bytes and a file of
/// `file_size` bytes. A plan that is handed out reads `count` bytes from
/// within the file into the buffer without leaving it.
pub fn read_file_into_buffer(request: ReadRequest, buffer_size: u64, file_size: u64) -> (out:
    Result<ReadPlan, ReadError>)
    ensures
        out == plan_of(request, buffer_size, file_size),
        out matches Ok(plan) ==> plan.buffer_offset + plan.count <= buffer_size && plan.file_offset
            + plan.count <= file_size,
{
    let buffer_end: u64 = request.buffer_offset as u64 + request.count as u64;
    let file_end: u64 = request.file_offset as u64 + request.count as u64;
    if buffer_end > buffer_size {
        Err(
            ReadError::BufferTooSmall {
                needed: buffer_end,
                size: buffer_size,
                count: request.count as u64,
            },
        )
    } else if file_end > file_size {
        Err(ReadError::PastEndOfFile { needed: file_end, size: file_size })
    } else {
        Ok(
            ReadPlan {
                buffer_offset: request.buffer_offset as usize,
                file_offset: request.file_offset as u64,
                count: request.count as usize,
            },
        )
    }
}

/// Why a read by first and last byte was refused.
#[derive(Clone, Copy, Debug, PartialEq, Eq, Structural)]
pub enum RangeError {
    /// The first byte is below zero.
    StartNegative,
    /// The last byte is not positive.
    FinishNotPositive,
    /// A first byte without a last byte.
    FinishMissing,
    /// The first byte is no whole number.
    StartNotANumber(ValueKind),
    /// The last byte is no whole number.
    FinishNotANumber(ValueKind),
    /// The last byte lies before the first.
    Reversed,
}

/// Which part of a file a read by first and last byte takes.
#[derive(Clone, Copy, Debug, PartialEq, Eq, Structural)]
pub enum ByteRange {
    /// The whole file.
    Whole,
    /// `count` bytes from `start` on.
    Part { start: u64, count: usize },
}

/// The last byte that an argument stands for, with the first byte known. It
/// must be a positive whole number that does not lie before the first byte;
/// neither an explicit nil nor a floating-point number is one.
pub open spec fn finish_of(finish: IntegerArg, start: Option<i32>) -> Result<
    Option<i32>,
    RangeError,
> {
    match finish {
        IntegerArg::Wrong(kind) => Err(RangeError::FinishNotANumber(kind)),
        IntegerArg::Nil => Err(RangeError::FinishNotANumber(ValueKind::Nil)),
        IntegerArg::Float { .. } => Err(RangeError::FinishNotANumber(ValueKind::Number)),
        IntegerArg::Value(f) => if f <= 0 {
            Err(RangeError::FinishNotPositive)
        } else if start is Some && f < start->0 {
            Err(RangeError::Reversed)
        } else {
            Ok(Some(f))
        },
        IntegerArg::Missing => if start is Some {
            Err(RangeError::FinishMissing)
        } else {
            Ok(None)
        },
    }
}

/// The part of a file that the arguments `start` and `finish` ask for: the
/// whole file when no first byte is given, else the bytes from `start` up to
/// `finish`. The first byte is checked before the last; neither an explicit
/// nil nor a floating-point number is a whole number in either place.
pub open spec fn range_of(start: IntegerArg, finish: IntegerArg) -> Result<ByteRange, RangeError> {
    match start {
        IntegerArg::Wrong(kind) => Err(RangeError::StartNotANumber(kind)),
        IntegerArg::Nil => Err(RangeError::StartNotANumber(ValueKind::Nil)),
        IntegerArg::Float { .. } => Err(RangeError::StartNotANumber(ValueKind::Number)),
        IntegerArg::Value(s) => if s < 0 {
            Err(RangeError::StartNegative)
        } else {
            match finish_of(finish, Some(s)) {
                Err(e) => Err(e),
                Ok(Some(f)) => Ok(ByteRange::Part { start: s as u64, count: (f - s) as usize }),
                Ok(None) => Err(RangeError::FinishMissing),
            }
        },
        IntegerArg::Missing => match finish_of(finish, None) {
            Err(e) => Err(e),
            Ok(_) => Ok(ByteRange::Whole),
        },
    }
}

/// The last byte that an argument stands for, with the first byte known.
fn finish_argument(finish: IntegerArg, start: Option<i32>) -> (out: Result<Option<i32>, RangeError>)
    ensures
        out == finish_of(finish, start),
{
    match finish {
        IntegerArg::Wrong(kind) => Err(RangeError::FinishNotANumber(kind)),
        IntegerArg::Nil => Err(RangeError::FinishNotANumber(ValueKind::Nil)),
        IntegerArg::Float { .. } => Err(RangeError::FinishNotANumber(ValueKind::Number)),
        IntegerArg::Value(f) => {
            if f <= 0 {
                Err(RangeError::FinishNotPositive)
            } else {
                match start {
                    Some(s) => if f < s {
                        Err(RangeError::Reversed)
                    } else {
                        Ok(Some(f))
                    },
                    None => Ok(Some(f)),
                }
            }
        },
        IntegerArg::Missing => match start {
            Some(_) => Err(RangeError::FinishMissing),
            None => Ok(None),
        },
    }
}

/// The part of a file that a read by first and last byte takes.
pub fn read_entry_path_into_buffer(start: IntegerArg, finish: IntegerArg) -> (out: Result<
    ByteRange,
    RangeError,
>)
    ensures
        out == range_of(start, finish),
{
    match start {
        IntegerArg::Wrong(kind) => Err(RangeError::StartNotANumber(kind)),
        IntegerArg::Nil => Err(RangeError::StartNotANumber(ValueKind::Nil)),
        IntegerArg::Float { .. } => Err(RangeError::StartNotANumber(ValueKind::Number)),
        IntegerArg::Value(s) => {
            if s < 0 {
                return Err(RangeError::StartNegative);
            }
            match finish_argument(finish, Some(s)) {
                Err(e) => Err(e),
                Ok(Some(f)) => Ok(ByteRange::Part { start: s as u64, count: (f - s) as usize }),
                Ok(None) => Err(RangeError::FinishMissing),
            }
        },
        IntegerArg::Missing => match finish_argument(finish, None) {
            Err(e) => Err(e),
            Ok(_) => Ok(ByteRange::Whole),
        },
    }
}

/// The message of a failed read or write: the function that failed, what
/// went wrong, and the path, or for an unclassified failure the system's
/// own words.
pub open spec fn io_message(
    kind: IoFailure,
    function_name: Seq<char>,
    path: Seq<char>,
    detail: Seq<char>,
) -> Seq<char> {
    match kind {
        IoFailure::NotFound => function_name + ": File not found: "@ + path,
        IoFailure::PermissionDenied => function_name + ": Permission denied: "@ + path,
        IoFailure::Other => function_name + ": Error reading file: "@ + detail,
    }
}

/// The message of a failed read or write.
pub fn wrap_io_read_errors(kind: IoFailure, function_name: &str, path: &str, detail: &str) -> (out:
    String)
    ensures
        out@ == io_message(kind, function_name@, path@, detail@),
{
    let mut out = String::from_str(function_name);
    match kind {
        IoFailure::NotFound => {
            out.append(": File not found: ");
            out.append(path);
        },
        IoFailure::PermissionDenied => {
            out.append(": Permission denied: ");
            out.append(path);
        },
        IoFailure::Other => {
            out.append(": Error reading file: ");
            out.append(detail);
        },
    }
    out
}

/// What is odd about a path that does not exist as written.
#[derive(Clone, Copy, Debug, PartialEq, Eq, Structural)]
pub enum PathHint {
    /// The path exists once `/` is put before it.
    MissingLeadingSlash,
    /// The path begins like a home directory without the leading `/`.
    LooksAbsolute,
}

/// What is odd about `path`, given whether it exists as written and whether
/// it exists with `/` before it. A path that exists is never odd.
pub open spec fn path_hint(path: Seq<char>, exists: bool, exists_as_absolute: bool) -> Option<
    PathHint,
> {
    if !exists && exists_as_absolute {
        Some(PathHint::MissingLeadingSlash)
    } else if !exists && "home"@.is_prefix_of(path) {
        Some(PathHint::LooksAbsolute)
    } else {
        None
    }
}

/// Refuses a path that looks like a mistyped absolute path.
pub fn validate_path(path: &str, exists: bool, exists_as_absolute: bool) -> (out: Result<
    (),
    PathHint,
>)
    ensures
        out == match path_hint(path@, exists, exists_as_absolute) {
            Some(hint) => Err::<(), PathHint>(hint),
            None => Ok::<(), PathHint>(()),
        },
{
    if exists {
        return Ok(());
    }
    if exists_as_absolute {
        return Err(PathHint::MissingLeadingSlash);
    }
    let chars = to_chars(path);
    let home = to_chars("home");
    if chars_start_with(&chars, &home) {
        Err(PathHint::LooksAbsolute)
    } else {
        Ok(())
    }
}

/// Why a rename was refused.
#[derive(Clone, Copy, Debug, PartialEq, Eq, Structural)]
pub enum RenameError {
    /// The new name holds a separator: that would be a move.
    NameHoldsSeparator,
}

/// Whether a separator occurs in `name`.
pub open spec fn holds_separator(name: Seq<char>) -> bool {
    exists|i: int| 0 <= i < name.len() && is_separator(#[trigger] name[i])
}

/// The path of an entry once it is renamed to `name`: the new name beside
/// the old one, in the same directory.
pub open spec fn renamed(entry: Seq<char>, name: Seq<char>) -> Seq<char> {
    entry.take(dir_len(entry) as int) + name
}

/// Where a rename of the entry at `entry` to `name` leads.
pub fn rename(entry: &str, name: &str) -> (out: Result<String, RenameError>)
    ensures
        holds_separator(name@) ==> out == Err::<String, RenameError>(
            RenameError::NameHoldsSeparator,
        ),
        !holds_separator(name@) ==> (out matches Ok(target) && target@ == renamed(entry@, name@)),
{
    let n = to_chars(name);
    let mut i: usize = 0;
    while i < n.len()
        invariant
            i <= n.len(),
            n@ == name@,
            forall|j: int| 0 <= j < i ==> !is_separator(#[trigger] n@[j]),
        decreases n.len() - i,
    {
        if n[i] == '/' || n[i] == '\\' {
            return Err(RenameError::NameHoldsSeparator);
        }
        i += 1;
    }
    let e = to_chars(entry);
    let k = parent_len(&e);
    let mut out = String::from_str(entry.substring_char(0, k));
    proof {
        assert(entry@.subrange(0, k as int) =~= entry@.take(k as int));
    }
    out.append(name);
    Ok(out)
}

/// What removing an entry amounts to.
#[derive(Clone, Copy, Debug, PartialEq, Eq, Structural)]
pub enum Removal {
    /// Remove the file.
    File,
    /// Remove the directory and all that is in it.
    Tree,
}

/// What removing an entry of the kind `kind` amounts to; nothing, when
/// nothing is there.
pub fn remove(kind: PathKind) -> (out: Option<Removal>)
    ensures
        out == match kind {
            PathKind::File => Some(Removal::File),
            PathKind::Directory => Some(Removal::Tree),
            PathKind::Missing => None::<Removal>,
        },
{
    match kind {
        PathKind::File => Some(Removal::File),
        PathKind::Directory => Some(Removal::Tree),
        PathKind::Missing => None,
    }
}

/// The `n`-th parent of `path`, if the path has that many.
pub open spec fn nth_parent(path: Seq<char>, n: nat) -> Option<Seq<char>>
    decreases n,
{
    if n == 0 {
        Some(path)
    } else if !has_file_name(path) {
        None
    } else {
        nth_parent(parent_dir(path), (n - 1) as nat)
    }
}

/// The `n`-th parent of `path`, if the path has that many.
pub fn fs_path_parent(path: &str, n: u32) -> (out: Option<String>)
    ensures
        match nth_parent(path@, n as nat) {
            Some(p) => out matches Some(s) && s@ == p,
            None => out is None,
        },
{
    let mut current = String::from_str(path);
    let mut left: u32 = n;
    while left > 0
        invariant
            nth_parent(path@, n as nat) == nth_parent(current@, left as nat),
        decreases left,
    {
        match parent_of(current.as_str()) {
            None => {
                return None;
            },
            Some(parent) => {
                current = parent;
            },
        }
        left -= 1;
    }
    Some(current)
}

/// The name of the entry that `path` ends with, if it ends with one.
pub fn fs_path_child(path: &str) -> (out: Option<String>)
    ensures
        out is Some <==> has_file_name(path@),
        out matches Some(name) ==> name@ == file_name(path@),
{
    let chars = to_chars(path);
    let k = parent_len(&chars);
    if k == chars.len() {
        return None;
    }
    let name = path.substring_char(k, chars.len());
    proof {
        assert(path@.subrange(k as int, path@.len() as int) =~= path@.skip(k as int));
    }
    Some(String::from_str(name))
}

/// `component` without the separators it begins with.
pub open spec fn without_leading_separators(component: Seq<char>) -> Seq<char>
    decreases component.len(),
{
    if component.len() > 0 && is_separator(component[0]) {
        without_leading_separators(component.skip(1))
    } else {
        component
    }
}

/// `base` with one more component behind it: a separator is written between
/// the two unless `base` is empty or ends with one.
pub open spec fn pushed(base: Seq<char>, component: Seq<char>) -> Seq<char> {
    if base.len() == 0 || is_separator(base.last()) {
        base + component
    } else {
        base + seq!['/'] + component
    }
}

/// The components joined into one path, each without the separators it
/// begins with, so that no component starts the path over.
pub open spec fn joined(components: Seq<Seq<char>>) -> Seq<char>
    decreases components.len(),
{
    if components.len() == 0 {
        Seq::empty()
    } else {
        pushed(joined(components.drop_last()), without_leading_separators(components.last()))
    }
}

/// The components joined into one path.
pub fn fs_path_join(components: &Vec<String>) -> (out: String)
    ensures
        out@ == joined(views_of(components@)),
{
    let ghost views = views_of(components@);
    let mut out: Vec<char> = Vec::new();
    let mut i: usize = 0;
    assert(views.take(0) =~= Seq::<Seq<char>>::empty());
    while i < components.len()
        invariant
            i <= components.len(),
            views == views_of(components@),
            out@ == joined(views.take(i as int)),
        decreases components.len() - i,
    {
        let chars = to_chars(components[i].as_str());
        assert(views[i as int] == chars@);
        let mut start: usize = 0;
        assert(chars@.skip(0) =~= chars@);
        while start < chars.len() && (chars[start] == '/' || chars[start] == '\\')
            invariant
                start <= chars.len(),
                without_leading_separators(chars@) == without_leading_separators(
                    chars@.skip(start as int),
                ),
            decreases chars.len() - start,
        {
            proof {
                let rest = chars@.skip(start as int);
                assert(rest[0] == chars@[start as int]);
                assert(rest.skip(1) =~= chars@.skip(start + 1));
            }
            start += 1;
        }
        proof {
            let rest = chars@.skip(start as int);
            if start < chars.len() {
                assert(rest[0] == chars@[start as int]);
            }
            assert(without_leading_separators(chars@) == rest);
        }
        let ghost base = out@;
        let n = out.len();
        if n > 0 && !(out[n - 1] == '/' || out[n - 1] == '\\') {
            out.push('/');
        }
        let ghost lead = out@;
        let mut j: usize = start;
        while j < chars.len()
            invariant
                start <= j <= chars.len(),
                out@ == lead + chars@.subrange(start as int, j as int),
            decreases chars.len() - j,
        {
            out.push(chars[j]);
            j += 1;
            assert(out@ =~= lead + chars@.subrange(start as int, j as int));
        }
        proof {
            assert(chars@.subrange(start as int, chars.len() as int) =~= chars@.skip(start as int));
            let t = views.take(i + 1);
            assert(t.drop_last() =~= views.take(i as int));
            assert(t.last() == chars@);
            assert(out@ == pushed(base, without_leading_separators(chars@)));
        }
        i += 1;
    }
    assert(views.take(components.len() as int) =~= views);
    from_chars(&out)
}

/// What a search for a path found.
#[derive(Clone, Copy, Debug, PartialEq, Eq, Structural)]
pub enum Found {
    File,
    Directory,
    /// Nothing is at the path.
    Nothing,
    /// The path cannot be looked at.
    Denied,
}

/// What a search found, given the filesystem's answer: a kind of entry, or
/// why it could not be told. Any failure but a missing entry and a denied
/// look is handed on.
pub fn fs_find(answer: Result<PathKind, IoFailure>) -> (out: Result<Found, IoFailure>)
    ensures
        out == match answer {
            Ok(PathKind::File) => Ok::<Found, IoFailure>(Found::File),
            Ok(PathKind::Directory) => Ok::<Found, IoFailure>(Found::Directory),
            Ok(PathKind::Missing) => Ok::<Found, IoFailure>(Found::Nothing),
            Err(IoFailure::NotFound) => Ok::<Found, IoFailure>(Found::Nothing),
            Err(IoFailure::PermissionDenied) => Ok::<Found, IoFailure>(Found::Denied),
            Err(IoFailure::Other) => Err::<Found, IoFailure>(IoFailure::Other),
        },
{
    match answer {
        Ok(PathKind::File) => Ok(Found::File),
        Ok(PathKind::Directory) => Ok(Found::Directory),
        Ok(PathKind::Missing) => Ok(Found::Nothing),
        Err(IoFailure::NotFound) => Ok(Found::Nothing),
        Err(IoFailure::PermissionDenied) => Ok(Found::Denied),
        Err(IoFailure::Other) => Err(IoFailure::Other),
    }
}

/// Whether a listing goes into subdirectories: only when the script said
/// so.
pub fn listdir(recursive: Option<ValueKind>, flag: bool) -> (out: Result<bool, ValueKind>)
    ensures
        out == match recursive {
            None => Ok::<bool, ValueKind>(false),
            Some(ValueKind::Nil) => Ok::<bool, ValueKind>(false),
            Some(ValueKind::Boolean) => Ok::<bool, ValueKind>(flag),
            Some(kind) => Err::<bool, ValueKind>(kind),
        },
{
    match recursive {
        None => Ok(false),
        Some(ValueKind::Nil) => Ok(false),
        Some(ValueKind::Boolean) => Ok(flag),
        Some(kind) => Err(kind),
    }
}

/// How an entry is copied.
#[derive(Clone, Copy, Debug, PartialEq, Eq, Structural)]
pub enum CopyKind {
    /// Copy the file.
    File,
    /// Copy the directory and all that is in it.
    Tree,
}

/// How an entry of the kind `kind` is copied; nothing, when nothing is
/// there.
pub fn copy_to(kind: PathKind) -> (out: Option<CopyKind>)
    ensures
        out == match kind {
            PathKind::File => Some(CopyKind::File),
            PathKind::Directory => Some(CopyKind::Tree),
            PathKind::Missing => None::<CopyKind>,
        },
{
    match kind {
        PathKind::File => Some(CopyKind::File),
        PathKind::Directory => Some(CopyKind::Tree),
        PathKind::Missing => None,
    }
}

/// Why a method of an entry was refused.
#[derive(Clone, Copy, Debug, PartialEq, Eq, Structural)]
pub enum EntryError {
    /// The method was called without the entry itself.
    NotAMethodCall(ValueKind),
    /// The entry's path is no text.
    PathNotText(ValueKind),
}

/// Checks that a method was called on an entry whose path is text.
pub fn get_path_from_entry(entry: ValueKind, path: ValueKind) -> (out: Result<(), EntryError>)
    ensures
        out == (if entry != ValueKind::Table {
            Err::<(), EntryError>(EntryError::NotAMethodCall(entry))
        } else if path != ValueKind::Text {
            Err::<(), EntryError>(EntryError::PathNotText(path))
        } else {
            Ok::<(), EntryError>(())
        }),
{
    match entry {
        ValueKind::Table => match path {
            ValueKind::Text => Ok(()),
            _ => Err(EntryError::PathNotText(path)),
        },
        _ => Err(EntryError::NotAMethodCall(entry)),
    }
}

/// How a directory is removed.
#[derive(Clone, Copy, Debug, PartialEq, Eq, Structural)]
pub enum DirectoryRemoval {
    /// Remove the directory and all that is in it.
    Tree,
    /// Remove the directory, which is empty.
    Empty,
    /// Leave the directory: it is not empty and was not to be forced.
    Nothing,
}

/// Why a directory was not removed.
#[derive(Clone, Copy, Debug, PartialEq, Eq, Structural)]
pub enum RemoveError {
    /// `force` is neither a flag nor nil.
    ForceNotAFlag(ValueKind),
    /// A forced removal by absolute path needs `remove_absolute_path`, which
    /// is no flag.
    OverrideNotAFlag(ValueKind),
    /// A forced removal by absolute path, with `remove_absolute_path` off.
    AbsolutePathRefused,
}

/// The kind of what stands where a flag is expected and none is given.
pub open spec fn kind_of_flag(flag: FlagArg) -> ValueKind {
    match flag {
        FlagArg::Value(_) => ValueKind::Boolean,
        FlagArg::Nil => ValueKind::Nil,
        FlagArg::Wrong(kind) => kind,
    }
}

/// How the directory at `path` is removed. Without `force` the whole tree
/// goes. With `force` off only an empty directory goes. With `force` on the
/// whole tree goes, but a path that begins with `/` only when
/// `remove_absolute_path` is on as well.
pub open spec fn directory_removal(
    path: Seq<char>,
    force: FlagArg,
    remove_absolute_path: FlagArg,
    empty: bool,
) -> Result<DirectoryRemoval, RemoveError> {
    match force {
        FlagArg::Nil => Ok(DirectoryRemoval::Tree),
        FlagArg::Wrong(kind) => Err(RemoveError::ForceNotAFlag(kind)),
        FlagArg::Value(false) => if empty {
            Ok(DirectoryRemoval::Empty)
        } else {
            Ok(DirectoryRemoval::Nothing)
        },
        FlagArg::Value(true) => if path.len() > 0 && path[0] == '/' {
            match remove_absolute_path {
                FlagArg::Value(true) => Ok(DirectoryRemoval::Tree),
                FlagArg::Value(false) => Err(RemoveError::AbsolutePathRefused),
                other => Err(RemoveError::OverrideNotAFlag(kind_of_flag(other))),
            }
        } else {
            Ok(DirectoryRemoval::Tree)
        },
    }
}

/// How the directory at `path` is removed, given the options of the call
/// and whether the directory is empty.
pub fn fs_remove(path: &str, force: FlagArg, remove_absolute_path: FlagArg, empty: bool) -> (out:
    Result<DirectoryRemoval, RemoveError>)
    ensures
        out == directory_removal(path@, force, remove_absolute_path, empty),
{
    match force {
        FlagArg::Nil => Ok(DirectoryRemoval::Tree),
        FlagArg::Wrong(kind) => Err(RemoveError::ForceNotAFlag(kind)),
        FlagArg::Value(false) => if empty {
            Ok(DirectoryRemoval::Empty)
        } else {
            Ok(DirectoryRemoval::Nothing)
        },
        FlagArg::Value(true) => {
            let chars = to_chars(path);
            if chars.len() > 0 && chars[0] == '/' {
                match remove_absolute_path {
                    FlagArg::Value(true) => Ok(DirectoryRemoval::Tree),
                    FlagArg::Value(false) => Err(RemoveError::AbsolutePathRefused),
                    FlagArg::Nil => Err(RemoveError::OverrideNotAFlag(ValueKind::Nil)),
                    FlagArg::Wrong(kind) => Err(RemoveError::OverrideNotAFlag(kind)),
                }
            } else {
                Ok(DirectoryRemoval::Tree)
            }
        },
    }
}

/// An ASCII letter or digit.
pub open spec fn is_alphanumeric(c: char) -> bool {
    ('a' <= c <= 'z') || ('A' <= c <= 'Z') || ('0' <= c <= '9')
}

/// Number of letters and digits that `path` ends with.
pub open spec fn suffix_len(path: Seq<char>) -> nat
    decreases path.len(),
{
    if path.len() > 0 && is_alphanumeric(path.last()) {
        1 + suffix_len(path.drop_last())
    } else {
        0
    }
}

/// The extension of a file: the letters and digits that its path ends with,
/// if there are any and a dot stands before them; nothing otherwise.
pub open spec fn extension_of(path: Seq<char>) -> Seq<char> {
    let n = suffix_len(path) as int;
    if 0 < n < path.len() && path[path.len() - n - 1] == '.' {
        path.skip(path.len() - n)
    } else {
        Seq::empty()
    }
}

/// The extension of the file at `path`.
pub fn file_extension(path: &str) -> (out: String)
    ensures
        out@ == extension_of(path@),
{
    let chars = to_chars(path);
    let len = chars.len();
    let mut n: usize = 0;
    assert(chars@.take(len as int) =~= chars@);
    while n < len && is_alnum(chars[len - n - 1])
        invariant
            n <= len,
            len == chars.len(),
            suffix_len(chars@) == n + suffix_len(chars@.take(len - n)),
        decreases len - n,
    {
        proof {
            let rest = chars@.take(len - n);
            assert(rest.last() == chars@[len - n - 1]);
            assert(rest.drop_last() =~= chars@.take(len - n - 1));
        }
        n += 1;
    }
    proof {
        let rest = chars@.take(len - n);
        if n < len {
            assert(rest.last() == chars@[len - n - 1]);
        }
        assert(suffix_len(rest) == 0);
    }
    if n > 0 && n < len && chars[len - n - 1] == '.' {
        let ext = path.substring_char(len - n, len);
        proof {
            assert(path@.subrange(len - n, len as int) =~= path@.skip(len - n));
        }
        String::from_str(ext)
    } else {
        String::new()
    }
}

/// Whether `c` is an ASCII letter or digit.
fn is_alnum(c: char) -> (yes: bool)
    ensures
        yes == is_alphanumeric(c),
{
    ('a' <= c && c <= 'z') || ('A' <= c && c <= 'Z') || ('0' <= c && c <= '9')
}

/// Why a search for an entry of one kind failed.
#[derive(Clone, Copy, Debug, PartialEq, Eq, Structural)]
pub enum FindError {
    /// The path names an entry of the other kind.
    WrongKind,
    /// The path cannot be looked at.
    Denied,
    /// The filesystem failed in another way.
    Other,
}

/// Whether an entry of the wanted kind is at a path, given the filesystem's
/// answer. A missing entry is no error; an entry of the other kind is.
pub open spec fn found_as(wanted: PathKind, answer: Result<PathKind, IoFailure>) -> Result<
    bool,
    FindError,
> {
    match answer {
        Ok(PathKind::Missing) => Ok(false),
        Ok(kind) => if kind == wanted {
            Ok(true)
        } else {
            Err(FindError::WrongKind)
        },
        Err(IoFailure::NotFound) => Ok(false),
        Err(IoFailure::PermissionDenied) => Err(FindError::Denied),
        Err(IoFailure::Other) => Err(FindError::Other),
    }
}

/// Whether a file is at a path, given the filesystem's answer.
pub fn fs_find_file(answer: Result<PathKind, IoFailure>) -> (out: Result<bool, FindError>)
    ensures
        out == found_as(PathKind::File, answer),
{
    match answer {
        Ok(PathKind::Missing) => Ok(false),
        Ok(PathKind::File) => Ok(true),
        Ok(PathKind::Directory) => Err(FindError::WrongKind),
        Err(IoFailure::NotFound) => Ok(false),
        Err(IoFailure::PermissionDenied) => Err(FindError::Denied),
        Err(IoFailure::Other) => Err(FindError::Other),
    }
}

/// Whether a directory is at a path, given the filesystem's answer.
pub fn fs_find_dir(answer: Result<PathKind, IoFailure>) -> (out: Result<bool, FindError>)
    ensures
        out == found_as(PathKind::Directory, answer),
{
    match answer {
        Ok(PathKind::Missing) => Ok(false),
        Ok(PathKind::Directory) => Ok(true),
        Ok(PathKind::File) => Err(FindError::WrongKind),
        Err(IoFailure::NotFound) => Ok(false),
        Err(IoFailure::PermissionDenied) => Err(FindError::Denied),
        Err(IoFailure::Other) => Err(FindError::Other),
    }
}

/// Whether a search follows symbolic links: as the script says, and yes
/// when it says nothing.
pub fn follow_symlinks(given: FlagArg) -> (out: Result<bool, ValueKind>)
    ensures
        out == match given {
            FlagArg::Value(flag) => Ok::<bool, ValueKind>(flag),
            FlagArg::Nil => Ok::<bool, ValueKind>(true),
            FlagArg::Wrong(kind) => Err::<bool, ValueKind>(kind),
        },
{
    match given {
        FlagArg::Value(flag) => Ok(flag),
        FlagArg::Nil => Ok(true),
        FlagArg::Wrong(kind) => Err(kind),
    }
}

/// Whether a search could look at its path at all: it could unless the
/// look was denied.
pub fn find_ok(found: Found) -> (ok: bool)
    ensures
        ok == (found != Found::Denied),
{
    match found {
        Found::Denied => false,
        _ => true,
    }
}

} // verus!
