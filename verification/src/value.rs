//! The kinds of value that the script engine knows. The library never looks
//! inside an engine value; where a decision depends on what a script passed,
//! it depends on the kind alone.

use vstd::prelude::*;

verus! {

/// The kind of an engine value.
#[derive(Clone, Copy, Debug, PartialEq, Eq, Structural)]
pub enum ValueKind {
    Nil,
    Boolean,
    Integer,
    Number,
    Text,
    Table,
    Function,
    Buffer,
    Other,
}

/// The name of a kind as messages show it.
pub open spec fn kind_name(kind: ValueKind) -> Seq<char> {
    match kind {
        ValueKind::Nil => "nil"@,
        ValueKind::Boolean => "boolean"@,
        ValueKind::Integer => "integer"@,
        ValueKind::Number => "number"@,
        ValueKind::Text => "string"@,
        ValueKind::Table => "table"@,
        ValueKind::Function => "function"@,
        ValueKind::Buffer => "buffer"@,
        ValueKind::Other => "userdata"@,
    }
}

/// The name of a kind as messages show it.
pub fn name_of_kind(kind: ValueKind) -> (out: &'static str)
    ensures
        out@ == kind_name(kind),
{
    match kind {
        ValueKind::Nil => "nil",
        ValueKind::Boolean => "boolean",
        ValueKind::Integer => "integer",
        ValueKind::Number => "number",
        ValueKind::Text => "string",
        ValueKind::Table => "table",
        ValueKind::Function => "function",
        ValueKind::Buffer => "buffer",
        ValueKind::Other => "userdata",
    }
}

/// The kind of the first argument, if there is one.
pub open spec fn first_kind(args: Seq<ValueKind>) -> Option<ValueKind> {
    if args.len() > 0 {
        Some(args[0])
    } else {
        None
    }
}

/// The kind of the last argument, if there is one.
pub open spec fn last_kind(args: Seq<ValueKind>) -> Option<ValueKind> {
    if args.len() > 0 {
        Some(args.last())
    } else {
        None
    }
}

/// The kind of the last argument that follows the first, if there is one.
pub open spec fn last_kind_after_first(args: Seq<ValueKind>) -> Option<ValueKind> {
    if args.len() > 1 {
        Some(args.last())
    } else {
        None
    }
}

/// What a script passed where a flag is expected.
#[derive(Clone, Copy, Debug, PartialEq, Eq, Structural)]
pub enum FlagArg {
    Value(bool),
    Nil,
    Wrong(ValueKind),
}

} // verus!
