//! The decisions of the time capability: what a timestamp argument stands
//! for, which formats have a name, and what a formatting request comes to.
//! The calendar arithmetic is done by `chrono`.

use vstd::prelude::*;
use crate::files::IntegerArg;
use crate::value::ValueKind;

verus! {

/// Number of named formats.
pub const FORMAT_COUNT: usize = 11;

/// What `chrono` writes for the moment `timestamp` seconds after the Unix
/// epoch, in UTC and in the strftime format `format`; nothing where the
/// moment is out of range or the format is refused.
pub uninterp spec fn utc_text(timestamp: i64, format: Seq<char>) -> Option<Seq<char>>;

/// Whether `chrono` has a moment for `timestamp` seconds after the Unix
/// epoch: whether `DateTime::from_timestamp` gives one.
pub uninterp spec fn representable(timestamp: i64) -> bool;

/// What `chrono` writes for the moment `timestamp` seconds after the Unix
/// epoch, seen `offset` seconds east of UTC, in the strftime format
/// `format`; nothing where the moment is out of range, the offset is a day
/// or more, or the format is refused.
pub uninterp spec fn offset_text(timestamp: i64, offset: i32, format: Seq<char>) -> Option<
    Seq<char>,
>;

/// Why a time request was refused.
#[derive(Clone, Copy, Debug, PartialEq, Eq, Structural)]
pub enum TimeError {
    /// The timestamp is no number.
    TimestampNotANumber(ValueKind),
    /// No timestamp was given.
    TimestampMissing,
    /// The format is no text.
    FormatNotText(ValueKind),
    /// No format was given.
    FormatMissing,
    /// The moment cannot be written in the format.
    NotFormattable,
}

/// A named format: the name by which scripts reach it and the strftime
/// string it stands for.
#[derive(Clone, Copy, Debug)]
pub struct NamedFormat {
    pub name: &'static str,
    pub format: &'static str,
}

impl View for NamedFormat {
    type V = (Seq<char>, Seq<char>);

    open spec fn view(&self) -> (Seq<char>, Seq<char>) {
        (self.name@, self.format@)
    }
}

/// `DateTime::from_timestamp` and `DateTime::format` of `chrono`, written
/// out with `DelayedFormat::write_to`: the moment in UTC in the given
/// format; nothing where the moment is out of range or the format is
/// refused.
#[verifier::external_body]
fn write_utc(timestamp: i64, format: &str) -> (out: Option<String>)
    ensures
        match utc_text(timestamp, format@) {
            Some(text) => out matches Some(s) && s@ == text,
            None => out is None,
        },
{
    let mut text = String::new();
    match chrono::DateTime::from_timestamp(timestamp, 0) {
        Some(moment) => match moment.format(format).write_to(&mut text) {
            Ok(()) => Some(text),
            Err(_) => None,
        },
        None => None,
    }
}

/// `DateTime::with_timezone` with `chrono::Local`, then `DateTime::offset`
/// and `FixedOffset::local_minus_utc`: how many seconds east of UTC the
/// machine's time zone is at the moment; nothing where `chrono` has no such
/// moment. The offset depends on the machine, so nothing is claimed of it.
#[verifier::external_body]
fn local_offset(timestamp: i64) -> (out: Option<i32>)
    ensures
        out is Some == representable(timestamp),
{
    match chrono::DateTime::from_timestamp(timestamp, 0) {
        Some(moment) => Some(moment.with_timezone(&chrono::Local).offset().local_minus_utc()),
        None => None,
    }
}

/// `DateTime::with_timezone` with a `FixedOffset` from `FixedOffset::east_opt`,
/// then `DateTime::format`, written out with `DelayedFormat::write_to`: the
/// moment at the given offset in the given format; nothing where the moment
/// is out of range, the offset is a day or more, or the format is refused.
#[verifier::external_body]
fn write_at(timestamp: i64, offset: i32, format: &str) -> (out: Option<String>)
    ensures
        match offset_text(timestamp, offset, format@) {
            Some(text) => out matches Some(s) && s@ == text,
            None => out is None,
        },
{
    let mut text = String::new();
    match (chrono::DateTime::from_timestamp(timestamp, 0), chrono::FixedOffset::east_opt(offset)) {
        (Some(moment), Some(zone)) => match moment.with_timezone(&zone).format(format).write_to(
            &mut text,
        ) {
            Ok(()) => Some(text),
            Err(_) => None,
        },
        _ => None,
    }
}

/// Named format `i`; past the end, the last one.
pub open spec fn format_row(i: int) -> (Seq<char>, Seq<char>) {
    if i == 0 {
        ("ISO_8601"@, "%Y-%m-%d %H:%M"@)
    } else if i == 1 {
        ("RFC_2822"@, "%a, %d %b %Y %H:%M:%S %z"@)
    } else if i == 2 {
        ("RFC_3339"@, "%Y-%m-%dT%H:%M:%S%:z"@)
    } else if i == 3 {
        ("SHORT_DATE"@, "%Y-%m-%d"@)
    } else if i == 4 {
        ("SHORT_TIME"@, "%H:%M"@)
    } else if i == 5 {
        ("FULL_DATE_TIME"@, "%A, %B %d, %Y %H:%M:%S"@)
    } else if i == 6 {
        ("MM/DD/YYYY"@, "%m/%d/%Y"@)
    } else if i == 7 {
        ("MM/DD/YYYY HH:MM (AM/PM)"@, "%m/%d/%Y %I:%M %p"@)
    } else if i == 8 {
        ("MM/DD/YY"@, "%m/%d/%y"@)
    } else if i == 9 {
        ("HH:MM (AM/PM)"@, "%I:%M %p"@)
    } else {
        ("AMERICAN_FULL_DATE_TIME"@, "%A, %B %d, %Y %I:%M:%S %p"@)
    }
}

/// Named format `i`; past the end, the last one.
pub fn common_format(i: usize) -> (out: NamedFormat)
    ensures
        out@ == format_row(i as int),
{
    if i == 0 {
        NamedFormat { name: "ISO_8601", format: "%Y-%m-%d %H:%M" }
    } else if i == 1 {
        NamedFormat { name: "RFC_2822", format: "%a, %d %b %Y %H:%M:%S %z" }
    } else if i == 2 {
        NamedFormat { name: "RFC_3339", format: "%Y-%m-%dT%H:%M:%S%:z" }
    } else if i == 3 {
        NamedFormat { name: "SHORT_DATE", format: "%Y-%m-%d" }
    } else if i == 4 {
        NamedFormat { name: "SHORT_TIME", format: "%H:%M" }
    } else if i == 5 {
        NamedFormat { name: "FULL_DATE_TIME", format: "%A, %B %d, %Y %H:%M:%S" }
    } else if i == 6 {
        NamedFormat { name: "MM/DD/YYYY", format: "%m/%d/%Y" }
    } else if i == 7 {
        NamedFormat { name: "MM/DD/YYYY HH:MM (AM/PM)", format: "%m/%d/%Y %I:%M %p" }
    } else if i == 8 {
        NamedFormat { name: "MM/DD/YY", format: "%m/%d/%y" }
    } else if i == 9 {
        NamedFormat { name: "HH:MM (AM/PM)", format: "%I:%M %p" }
    } else {
        NamedFormat { name: "AMERICAN_FULL_DATE_TIME", format: "%A, %B %d, %Y %I:%M:%S %p" }
    }
}

/// The named formats, in order.
pub fn create_datetime() -> (out: Vec<NamedFormat>)
    ensures
        out.len() == FORMAT_COUNT,
        forall|i: int| 0 <= i < FORMAT_COUNT ==> (#[trigger] out@[i])@ == format_row(i),
{
    let mut out: Vec<NamedFormat> = Vec::new();
    let mut i: usize = 0;
    while i < FORMAT_COUNT
        invariant
            i <= FORMAT_COUNT,
            out.len() == i,
            forall|k: int| 0 <= k < i ==> (#[trigger] out@[k])@ == format_row(k),
        decreases FORMAT_COUNT - i,
    {
        out.push(common_format(i));
        i += 1;
    }
    out
}

/// The timestamp that an argument stands for: a whole number itself, a
/// floating-point number without its fraction.
pub fn time_datetime_from(timestamp: IntegerArg) -> (out: Result<i64, TimeError>)
    ensures
        out == match timestamp {
            IntegerArg::Value(n) => Ok::<i64, TimeError>(n as i64),
            IntegerArg::Float { truncated, fraction } => Ok::<i64, TimeError>(truncated as i64),
            IntegerArg::Nil => Err::<i64, TimeError>(
                TimeError::TimestampNotANumber(ValueKind::Nil),
            ),
            IntegerArg::Missing => Err::<i64, TimeError>(TimeError::TimestampMissing),
            IntegerArg::Wrong(kind) => Err::<i64, TimeError>(TimeError::TimestampNotANumber(kind)),
        },
{
    match timestamp {
        IntegerArg::Value(n) => Ok(n as i64),
        IntegerArg::Float { truncated, fraction } => Ok(truncated as i64),
        IntegerArg::Nil => Err(TimeError::TimestampNotANumber(ValueKind::Nil)),
        IntegerArg::Missing => Err(TimeError::TimestampMissing),
        IntegerArg::Wrong(kind) => Err(TimeError::TimestampNotANumber(kind)),
    }
}

/// Checks that the format of a formatting request is text.
pub fn check_format(format: Option<ValueKind>) -> (out: Result<(), TimeError>)
    ensures
        out == match format {
            Some(ValueKind::Text) => Ok::<(), TimeError>(()),
            Some(kind) => Err::<(), TimeError>(TimeError::FormatNotText(kind)),
            None => Err::<(), TimeError>(TimeError::FormatMissing),
        },
{
    match format {
        Some(ValueKind::Text) => Ok(()),
        Some(kind) => Err(TimeError::FormatNotText(kind)),
        None => Err(TimeError::FormatMissing),
    }
}

/// The moment `timestamp` in UTC, written in `format`.
pub fn format_utc(timestamp: i64, format: &str) -> (out: Result<String, TimeError>)
    ensures
        match utc_text(timestamp, format@) {
            Some(text) => out matches Ok(s) && s@ == text,
            None => out == Err::<String, TimeError>(TimeError::NotFormattable),
        },
{
    match write_utc(timestamp, format) {
        Some(text) => Ok(text),
        None => Err(TimeError::NotFormattable),
    }
}

/// What a formatting at an offset comes to: the text, or an error where
/// there is none.
pub open spec fn text_at(timestamp: i64, offset: i32, format: Seq<char>) -> Result<
    Seq<char>,
    TimeError,
> {
    match offset_text(timestamp, offset, format) {
        Some(text) => Ok(text),
        None => Err(TimeError::NotFormattable),
    }
}

/// A text, or why there is none, over sequences.
pub open spec fn text_view(out: Result<String, TimeError>) -> Result<Seq<char>, TimeError> {
    match out {
        Ok(text) => Ok(text@),
        Err(e) => Err(e),
    }
}

/// The moment `timestamp` seen `offset` seconds east of UTC, written in
/// `format`.
pub fn format_at(timestamp: i64, offset: i32, format: &str) -> (out: Result<String, TimeError>)
    ensures
        text_view(out) == text_at(timestamp, offset, format@),
{
    match write_at(timestamp, offset, format) {
        Some(text) => Ok(text),
        None => Err(TimeError::NotFormattable),
    }
}

/// The moment `timestamp` in the machine's time zone, written in `format`:
/// what `format_at` writes at the offset that the machine's zone has at that
/// moment. Which offset that is depends on the machine; a moment that
/// `chrono` does not have cannot be written.
pub fn format_local(timestamp: i64, format: &str) -> (out: Result<String, TimeError>)
    ensures
        !representable(timestamp) ==> out == Err::<String, TimeError>(TimeError::NotFormattable),
        representable(timestamp) ==> exists|offset: i32|
            text_view(out) == #[trigger] text_at(timestamp, offset, format@),
{
    match local_offset(timestamp) {
        Some(offset) => format_at(timestamp, offset, format),
        None => Err(TimeError::NotFormattable),
    }
}

} // verus!
