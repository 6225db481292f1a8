//! The text codec: how a structured value that the engine has written as
//! compact JSON is laid out for the reader. Parsing and printing are done by
//! `serde_json_lenient`; the options and their defaults are decided here.

use vstd::prelude::*;
use crate::value::{FlagArg, ValueKind};

verus! {

/// A JSON value of `serde_json_lenient`. Verus sees nothing of what is
/// inside.
#[verifier::external_type_specification]
#[verifier::external_body]
pub struct ExJsonValue(serde_json_lenient::Value);

/// The value that `serde_json_lenient::from_str` reads from `text`, or
/// nothing where it refuses the text.
pub uninterp spec fn json_value_in(text: Seq<char>) -> Option<serde_json_lenient::Value>;

/// `value` after `Value::sort_all_objects`: the keys of every object in
/// alphanumerical order.
pub uninterp spec fn json_sorted(value: serde_json_lenient::Value) -> serde_json_lenient::Value;

/// What `serde_json_lenient::to_string_pretty` writes for `value`, or
/// nothing where it fails.
pub uninterp spec fn json_pretty_text(value: serde_json_lenient::Value) -> Option<Seq<char>>;

/// How a value is to be written.
#[derive(Clone, Copy, Debug, PartialEq, Eq, Structural)]
pub struct EncodeOptions {
    /// On several lines, indented.
    pub pretty: bool,
    /// The keys of every object in order.
    pub sorted: bool,
}

/// Why a value was not encoded.
#[derive(Clone, Copy, Debug, PartialEq, Eq, Structural)]
pub enum JsonError {
    /// The value to encode is no table.
    NotATable(ValueKind),
    /// Nothing to encode was given.
    Nothing,
    /// The options are neither a table nor nil.
    OptionsNotATable(ValueKind),
    /// The `pretty` option is no flag.
    PrettyNotAFlag(ValueKind),
    /// The `sorted` option is no flag.
    SortedNotAFlag(ValueKind),
    /// The text is no JSON.
    NotJson,
    /// The value could not be written.
    NotWritable,
}

/// `serde_json_lenient::from_str` for a `Value`: the value that the text
/// holds, or nothing where the text is refused.
#[verifier::external_body]
fn json_parse(text: &str) -> (out: Option<serde_json_lenient::Value>)
    ensures
        out == json_value_in(text@),
{
    match serde_json_lenient::from_str::<serde_json_lenient::Value>(text) {
        Ok(value) => Some(value),
        Err(_) => None,
    }
}

/// `Value::sort_all_objects`: puts the keys of every object in order.
#[verifier::external_body]
fn json_sort(value: &mut serde_json_lenient::Value)
    ensures
        *final(value) == json_sorted(*old(value)),
{
    value.sort_all_objects()
}

/// `serde_json_lenient::to_string_pretty`: the value on several lines,
/// indented; nothing where writing fails.
#[verifier::external_body]
fn json_pretty(value: &serde_json_lenient::Value) -> (out: Option<String>)
    ensures
        match json_pretty_text(*value) {
            Some(text) => out matches Some(s) && s@ == text,
            None => out is None,
        },
{
    match serde_json_lenient::to_string_pretty(value) {
        Ok(text) => Some(text),
        Err(_) => None,
    }
}

/// The options that a script's option table stands for. Without a table a
/// value is written pretty and unsorted, and so is each option that the
/// table leaves out.
pub open spec fn options_of(table: Option<ValueKind>, pretty: FlagArg, sorted: FlagArg) -> Result<
    EncodeOptions,
    JsonError,
> {
    match table {
        None => Ok(EncodeOptions { pretty: true, sorted: false }),
        Some(ValueKind::Nil) => Ok(EncodeOptions { pretty: true, sorted: false }),
        Some(ValueKind::Table) => match pretty {
            FlagArg::Wrong(kind) => Err(JsonError::PrettyNotAFlag(kind)),
            _ => match sorted {
                FlagArg::Wrong(kind) => Err(JsonError::SortedNotAFlag(kind)),
                _ => Ok(
                    EncodeOptions {
                        pretty: match pretty {
                            FlagArg::Value(flag) => flag,
                            _ => true,
                        },
                        sorted: match sorted {
                            FlagArg::Value(flag) => flag,
                            _ => false,
                        },
                    },
                ),
            },
        },
        Some(kind) => Err(JsonError::OptionsNotATable(kind)),
    }
}

/// The text that a value is handed out as, given the compact text that the
/// engine wrote for it. A value that is not to be pretty is handed out as
/// the engine wrote it; else the text is read, sorted if asked, and written
/// again on several lines.
pub open spec fn encoded(compact: Seq<char>, options: EncodeOptions) -> Result<
    Seq<char>,
    JsonError,
> {
    if !options.pretty {
        Ok(compact)
    } else {
        match json_value_in(compact) {
            None => Err(JsonError::NotJson),
            Some(value) => match json_pretty_text(
                if options.sorted {
                    json_sorted(value)
                } else {
                    value
                },
            ) {
                Some(text) => Ok(text),
                None => Err(JsonError::NotWritable),
            },
        }
    }
}

/// Checks that the value to encode is a table.
pub fn check_encodable(value: Option<ValueKind>) -> (out: Result<(), JsonError>)
    ensures
        out == match value {
            Some(ValueKind::Table) => Ok::<(), JsonError>(()),
            Some(kind) => Err::<(), JsonError>(JsonError::NotATable(kind)),
            None => Err::<(), JsonError>(JsonError::Nothing),
        },
{
    match value {
        Some(ValueKind::Table) => Ok(()),
        Some(kind) => Err(JsonError::NotATable(kind)),
        None => Err(JsonError::Nothing),
    }
}

/// The options that a script's option table stands for.
pub fn encode_options(table: Option<ValueKind>, pretty: FlagArg, sorted: FlagArg) -> (out: Result<
    EncodeOptions,
    JsonError,
>)
    ensures
        out == options_of(table, pretty, sorted),
{
    match table {
        None => Ok(EncodeOptions { pretty: true, sorted: false }),
        Some(ValueKind::Nil) => Ok(EncodeOptions { pretty: true, sorted: false }),
        Some(ValueKind::Table) => {
            let pretty = match pretty {
                FlagArg::Value(flag) => flag,
                FlagArg::Nil => true,
                FlagArg::Wrong(kind) => {
                    return Err(JsonError::PrettyNotAFlag(kind));
                },
            };
            let sorted = match sorted {
                FlagArg::Value(flag) => flag,
                FlagArg::Nil => false,
                FlagArg::Wrong(kind) => {
                    return Err(JsonError::SortedNotAFlag(kind));
                },
            };
            Ok(EncodeOptions { pretty, sorted })
        },
        Some(kind) => Err(JsonError::OptionsNotATable(kind)),
    }
}

/// The text that a value is handed out as, given the compact text that the
/// engine wrote for it.
pub fn json_encode(compact: String, options: EncodeOptions) -> (out: Result<String, JsonError>)
    ensures
        match encoded(compact@, options) {
            Ok(text) => out matches Ok(s) && s@ == text,
            Err(e) => out == Err::<String, JsonError>(e),
        },
{
    if !options.pretty {
        return Ok(compact);
    }
    match json_parse(compact.as_str()) {
        None => Err(JsonError::NotJson),
        Some(value) => {
            let mut value = value;
            if options.sorted {
                json_sort(&mut value);
            }
            match json_pretty(&value) {
                Some(text) => Ok(text),
                None => Err(JsonError::NotWritable),
            }
        },
    }
}

} // verus!
