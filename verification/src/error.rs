//! What can go wrong on the way to the engine and back.

use vstd::prelude::*;
use vstd::string::*;
use crate::logical_type::{kind_name, LogicalType, LogicalTypeView};
use crate::text::{concat2, decimal_text, int_to_string, owned};

verus! {

/// A value from the engine that has no counterpart on the host's side.
#[derive(Debug, PartialEq, Eq)]
pub enum ConversionError {
    /// The engine's date, in days from 1970-01-01, is outside the
    /// calendar.
    Date(i32),
    /// The engine's timestamp, in microseconds from the start of 1970, is
    /// outside the calendar.
    Timestamp(i64),
    /// The same for a timestamp with time zone, in microseconds.
    TimestampTz(i64),
    /// The same for a timestamp in nanoseconds.
    TimestampNs(i64),
    /// The same for a timestamp in milliseconds.
    TimestampMs(i64),
    /// The same for a timestamp in seconds.
    TimestampSec(i64),
    /// The bytes of a string are not UTF-8.
    String(Vec<u8>),
}

/// The mathematical value of a [`ConversionError`].
pub ghost enum ConversionErrorView {
    Date(i32),
    Timestamp(i64),
    TimestampTz(i64),
    TimestampNs(i64),
    TimestampMs(i64),
    TimestampSec(i64),
    String(Seq<u8>),
}

impl View for ConversionError {
    type V = ConversionErrorView;

    open spec fn view(&self) -> ConversionErrorView {
        match self {
            ConversionError::Date(x) => ConversionErrorView::Date(*x),
            ConversionError::Timestamp(x) => ConversionErrorView::Timestamp(*x),
            ConversionError::TimestampTz(x) => ConversionErrorView::TimestampTz(*x),
            ConversionError::TimestampNs(x) => ConversionErrorView::TimestampNs(*x),
            ConversionError::TimestampMs(x) => ConversionErrorView::TimestampMs(*x),
            ConversionError::TimestampSec(x) => ConversionErrorView::TimestampSec(*x),
            ConversionError::String(x) => ConversionErrorView::String(x@),
        }
    }
}

/// A failure of the engine, or of handing a value to it.
#[derive(Debug, PartialEq, Eq)]
pub enum Error {
    /// The message of an exception that the engine raised.
    CxxException(String),
    /// The engine's message for a query that failed.
    FailedQuery(String),
    /// The engine's message for a query that it could not prepare.
    FailedPreparedStatement(String),
    /// A value of a type that is only ever read from the engine was to be
    /// handed to it.
    ReadOnlyType(LogicalType),
}

/// The mathematical value of an [`Error`].
pub ghost enum ErrorView {
    CxxException(Seq<char>),
    FailedQuery(Seq<char>),
    FailedPreparedStatement(Seq<char>),
    ReadOnlyType(LogicalTypeView),
}

impl View for Error {
    type V = ErrorView;

    open spec fn view(&self) -> ErrorView {
        match self {
            Error::CxxException(m) => ErrorView::CxxException(m@),
            Error::FailedQuery(m) => ErrorView::FailedQuery(m@),
            Error::FailedPreparedStatement(m) => ErrorView::FailedPreparedStatement(m@),
            Error::ReadOnlyType(t) => ErrorView::ReadOnlyType(t@),
        }
    }
}

/// What std says is wrong with bytes that are not UTF-8; `None` for bytes
/// that are.
pub uninterp spec fn utf8_error_text(bytes: Seq<u8>) -> Option<Seq<char>>;

/// Asks std's `String::from_utf8` what is wrong with bytes, and formats
/// the answer with `Display` for `FromUtf8Error`.  Claims only that the
/// text is a function of the bytes.
#[verifier::external_body]
fn utf8_error_to_string(bytes: &Vec<u8>) -> (r: Option<String>)
    ensures
        utf8_error_text(bytes@) == match r {
            Some(text) => Some(text@),
            None => None,
        },
{
    String::from_utf8(bytes.clone()).err().map(|e| e.to_string())
}

/// The message for a count that is outside the calendar.
pub open spec fn out_of_range_text(kind: Seq<char>, count: int, unit: Seq<char>, target: Seq<char>)
    -> Seq<char> {
    "Could not convert Kuzu "@ + kind + " offset of UNIX_EPOCH + "@ + decimal_text(count) + " "@
        + unit + " to "@ + target
}

/// The message of a conversion error.
pub open spec fn conversion_error_text(e: ConversionErrorView) -> Seq<char> {
    match e {
        ConversionErrorView::Date(days) => out_of_range_text(
            "date"@,
            days as int,
            "days"@,
            "time::Date"@,
        ),
        ConversionErrorView::Timestamp(us) => out_of_range_text(
            "timestamp"@,
            us as int,
            "microseconds"@,
            "time::OffsetDateTime"@,
        ),
        ConversionErrorView::TimestampTz(us) => out_of_range_text(
            "timestamp_tz"@,
            us as int,
            "microseconds"@,
            "time::OffsetDateTime"@,
        ),
        ConversionErrorView::TimestampNs(ns) => out_of_range_text(
            "timestamp_ns"@,
            ns as int,
            "nanoseconds"@,
            "time::OffsetDateTime"@,
        ),
        ConversionErrorView::TimestampMs(ms) => out_of_range_text(
            "timestamp_ms"@,
            ms as int,
            "milliseconds"@,
            "time::OffsetDateTime"@,
        ),
        ConversionErrorView::TimestampSec(sec) => out_of_range_text(
            "timestamp_sec"@,
            sec as int,
            "seconds"@,
            "time::OffsetDateTime"@,
        ),
        ConversionErrorView::String(bytes) => {
            "Could not read Kuzu RDF string as a utf-8 std::string::String: "@ + (
            match utf8_error_text(bytes) {
                Some(text) => text,
                None => Seq::empty(),
            })
        },
    }
}

/// The message of an error.  The engine's own words are passed on as
/// they are.
pub open spec fn error_text(e: ErrorView) -> Seq<char> {
    match e {
        ErrorView::CxxException(message) => message,
        ErrorView::FailedQuery(message) => "Query execution failed: "@ + message,
        ErrorView::FailedPreparedStatement(message) => "Query execution failed: "@ + message,
        ErrorView::ReadOnlyType(t) => "Attempted to pass read only type "@ + kind_name(t)
            + " over ffi!"@,
    }
}

/// Builds the message for a count that is outside the calendar.
fn out_of_range_message(kind: &str, count: i64, unit: &str, target: &str) -> (r: String)
    ensures
        r@ == out_of_range_text(kind@, count as int, unit@, target@),
{
    let out = owned("Could not convert Kuzu ");
    let out = concat2(out, kind);
    let out = concat2(out, " offset of UNIX_EPOCH + ");
    let out = concat2(out, int_to_string(count as i128).as_str());
    let out = concat2(out, " ");
    let out = concat2(out, unit);
    let out = concat2(out, " to ");
    let out = concat2(out, target);
    out
}

impl ConversionError {
    /// The message of this error.
    pub fn message(&self) -> (r: String)
        ensures
            r@ == conversion_error_text(self@),
    {
        match self {
            ConversionError::Date(days) => out_of_range_message(
                "date",
                *days as i64,
                "days",
                "time::Date",
            ),
            ConversionError::Timestamp(us) => out_of_range_message(
                "timestamp",
                *us,
                "microseconds",
                "time::OffsetDateTime",
            ),
            ConversionError::TimestampTz(us) => out_of_range_message(
                "timestamp_tz",
                *us,
                "microseconds",
                "time::OffsetDateTime",
            ),
            ConversionError::TimestampNs(ns) => out_of_range_message(
                "timestamp_ns",
                *ns,
                "nanoseconds",
                "time::OffsetDateTime",
            ),
            ConversionError::TimestampMs(ms) => out_of_range_message(
                "timestamp_ms",
                *ms,
                "milliseconds",
                "time::OffsetDateTime",
            ),
            ConversionError::TimestampSec(sec) => out_of_range_message(
                "timestamp_sec",
                *sec,
                "seconds",
                "time::OffsetDateTime",
            ),
            ConversionError::String(bytes) => {
                let out = owned("Could not read Kuzu RDF string as a utf-8 std::string::String: ");
                match utf8_error_to_string(bytes) {
                    Some(text) => concat2(out, text.as_str()),
                    None => {
                        assert(out@ + Seq::<char>::empty() =~= out@);
                        out
                    },
                }
            },
        }
    }
}

impl Error {
    /// The message of this error.
    pub fn message(&self) -> (r: String)
        ensures
            r@ == error_text(self@),
    {
        match self {
            Error::CxxException(message) => message.clone(),
            Error::FailedQuery(message) => concat2(
                owned("Query execution failed: "),
                message.as_str(),
            ),
            Error::FailedPreparedStatement(message) => concat2(
                owned("Query execution failed: "),
                message.as_str(),
            ),
            Error::ReadOnlyType(typ) => {
                let out = owned("Attempted to pass read only type ");
                let out = concat2(out, typ.name());
                concat2(out, " over ffi!")
            },
        }
    }
}

} // verus!
