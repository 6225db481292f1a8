//! The decisions of the testing capability: what `try` accepts and how an
//! expected error is checked.

use vstd::prelude::*;
use crate::value::ValueKind;

verus! {

/// How an expected error is checked.
#[derive(Clone, Copy, Debug, PartialEq, Eq, Structural)]
pub enum Expectation {
    /// Call the handler with the error and hand on what it returns.
    CallHandler,
    /// Match the error's text, without colours, against the pattern.
    MatchPattern,
}

/// Why a testing call was refused.
#[derive(Clone, Copy, Debug, PartialEq, Eq, Structural)]
pub enum TestingError {
    /// `try` was not given a function.
    NotAFunction(ValueKind),
    /// The handler of an expected error is neither a function nor a pattern.
    BadHandler(ValueKind),
    /// The handlers given to `match` are no table.
    HandlersNotATable(ValueKind),
}

/// Checks that what `try` is to call is a function.
pub fn testing_try(kind: ValueKind) -> (out: Result<(), TestingError>)
    ensures
        out == if kind == ValueKind::Function {
            Ok::<(), TestingError>(())
        } else {
            Err::<(), TestingError>(TestingError::NotAFunction(kind))
        },
{
    match kind {
        ValueKind::Function => Ok(()),
        _ => Err(TestingError::NotAFunction(kind)),
    }
}

/// How an expected error is checked, given the kind of the handler. A
/// handler that was left out counts as a flag, which is refused like any
/// value that is neither a function nor text.
pub fn expect_err(handler: Option<ValueKind>) -> (out: Result<Expectation, TestingError>)
    ensures
        out == match handler {
            Some(ValueKind::Function) => Ok::<Expectation, TestingError>(Expectation::CallHandler),
            Some(ValueKind::Text) => Ok::<Expectation, TestingError>(Expectation::MatchPattern),
            Some(kind) => Err::<Expectation, TestingError>(TestingError::BadHandler(kind)),
            None => Err::<Expectation, TestingError>(
                TestingError::BadHandler(ValueKind::Boolean),
            ),
        },
{
    match handler {
        Some(ValueKind::Function) => Ok(Expectation::CallHandler),
        Some(ValueKind::Text) => Ok(Expectation::MatchPattern),
        Some(kind) => Err(TestingError::BadHandler(kind)),
        None => Err(TestingError::BadHandler(ValueKind::Boolean)),
    }
}

/// How a call under `try` ended.
#[derive(Clone, Debug, PartialEq, Eq)]
pub enum TryResult<V, E> {
    /// The function returned; this is its first value.
    Returned(V),
    /// The function raised an error; this is the error.
    Raised(E),
}

/// What a handler of a try result is used for.
#[derive(Clone, Copy, Debug, PartialEq, Eq, Structural)]
pub enum HandlerUse {
    /// The handler is a function: call it with the value or the error.
    Call,
    /// The handler is a value: hand it out as it is.
    Return,
}

/// The result of a call under `try`: the value that the function returned,
/// or the error that it raised. The error goes no further.
pub fn try_result<V, E>(outcome: Result<V, E>) -> (out: TryResult<V, E>)
    ensures
        out == match outcome {
            Ok(value) => TryResult::<V, E>::Returned(value),
            Err(error) => TryResult::<V, E>::Raised(error),
        },
{
    match outcome {
        Ok(value) => TryResult::Returned(value),
        Err(error) => TryResult::Raised(error),
    }
}

/// Whether the call under `try` returned.
pub fn try_ok<V, E>(result: &TryResult<V, E>) -> (ok: bool)
    ensures
        ok == (*result is Returned),
{
    match result {
        TryResult::Returned(_) => true,
        TryResult::Raised(_) => false,
    }
}

/// Unwraps a try result: the value of a call that returned, whatever
/// default was offered; for a call that raised the default, and the error
/// itself where none was offered.
pub fn try_unwrap<V, E>(result: TryResult<V, E>, default: Option<V>) -> (out: Result<V, E>)
    ensures
        out == match result {
            TryResult::Returned(value) => Ok::<V, E>(value),
            TryResult::Raised(error) => match default {
                Some(value) => Ok::<V, E>(value),
                None => Err::<V, E>(error),
            },
        },
{
    match result {
        TryResult::Returned(value) => Ok(value),
        TryResult::Raised(error) => match default {
            Some(value) => Ok(value),
            None => Err(error),
        },
    }
}

/// How `match` uses the handler that a script gave it: the handlers must be
/// a table; the one for the way the call ended is called when it is a
/// function and handed out as it is otherwise.
pub fn try_match(handlers: ValueKind, handler: ValueKind) -> (out: Result<HandlerUse, TestingError>)
    ensures
        out == (if handlers != ValueKind::Table {
            Err::<HandlerUse, TestingError>(TestingError::HandlersNotATable(handlers))
        } else if handler == ValueKind::Function {
            Ok::<HandlerUse, TestingError>(HandlerUse::Call)
        } else {
            Ok::<HandlerUse, TestingError>(HandlerUse::Return)
        }),
{
    match handlers {
        ValueKind::Table => match handler {
            ValueKind::Function => Ok(HandlerUse::Call),
            _ => Ok(HandlerUse::Return),
        },
        _ => Err(TestingError::HandlersNotATable(handlers)),
    }
}

} // verus!
