//! The errors of the library's parsers.

use vstd::prelude::*;

use crate::number::{decimal_text, usize_chars};
use crate::text::string_of;

verus! {

/// Why text is not a `u32`, as `str::parse::<u32>` reports it.
#[derive(Debug, Clone, Copy, PartialEq, Eq, Structural)]
pub enum IntFault {
    /// The text is empty.
    Empty,
    /// A character is not a digit in its place (a lone or misplaced sign
    /// among them).
    InvalidDigit,
    /// The number is too large for a `u32`.
    PosOverflow,
}

/// Why text is not a floating-point number, as `str::parse` reports it.
#[derive(Debug, Clone, Copy, PartialEq, Eq, Structural)]
pub enum FloatFault {
    /// The text is empty.
    Empty,
    /// The text is not a number.
    Invalid,
}

/// What is wrong with one line of the slurper CSV response.
#[derive(Debug, Clone, PartialEq, Eq)]
pub enum CsvFault {
    /// The line holds fewer than seven comma-separated fields.
    TooFewFields { found: usize },
    /// The CID field is not an unsigned 32-bit decimal number.
    InvalidCid { cause: IntFault },
    /// The callsign field is empty after trimming.
    EmptyCallsign,
    /// The facility type field is neither `pilot` nor `atc`, in any case.
    UnknownFacilityType { value: String },
    /// The visual range field is present but not an unsigned 32-bit number.
    InvalidVisualRange { cause: IntFault },
    /// The latitude field is not a floating-point number.
    InvalidLatitude { cause: FloatFault },
    /// The longitude field is not a floating-point number.
    InvalidLongitude { cause: FloatFault },
    /// A secondary latitude is not a floating-point number.
    InvalidSecondaryLatitude { cause: FloatFault },
    /// A secondary longitude is not a floating-point number.
    InvalidSecondaryLongitude { cause: FloatFault },
}

/// Errors from parsing VATSIM types or CSV data.
#[derive(Debug, Clone, PartialEq, Eq)]
pub enum ParseError {
    /// An unrecognized string or integer value for a known type (e.g. facility,
    /// rating).
    UnknownValue { kind: &'static str, value: String },
    /// A malformed line in the slurper CSV response, with the reason as
    /// text (see [`CsvFault::text`]).
    InvalidSlurperCsv { line: usize, reason: String },
}

/// The mathematical value of a [`CsvFault`].
pub enum CsvFaultView {
    TooFewFields { found: usize },
    InvalidCid { cause: IntFault },
    EmptyCallsign,
    UnknownFacilityType { value: Seq<char> },
    InvalidVisualRange { cause: IntFault },
    InvalidLatitude { cause: FloatFault },
    InvalidLongitude { cause: FloatFault },
    InvalidSecondaryLatitude { cause: FloatFault },
    InvalidSecondaryLongitude { cause: FloatFault },
}

/// The mathematical value of a [`ParseError`].
pub enum ParseErrorView {
    UnknownValue { kind: Seq<char>, value: Seq<char> },
    InvalidSlurperCsv { line: usize, reason: Seq<char> },
}

impl View for CsvFault {
    type V = CsvFaultView;

    open spec fn view(&self) -> CsvFaultView {
        match self {
            CsvFault::TooFewFields { found } => CsvFaultView::TooFewFields { found: *found },
            CsvFault::InvalidCid { cause } => CsvFaultView::InvalidCid { cause: *cause },
            CsvFault::EmptyCallsign => CsvFaultView::EmptyCallsign,
            CsvFault::UnknownFacilityType { value } => CsvFaultView::UnknownFacilityType {
                value: value@,
            },
            CsvFault::InvalidVisualRange { cause } => CsvFaultView::InvalidVisualRange {
                cause: *cause,
            },
            CsvFault::InvalidLatitude { cause } => CsvFaultView::InvalidLatitude { cause: *cause },
            CsvFault::InvalidLongitude { cause } => CsvFaultView::InvalidLongitude { cause: *cause },
            CsvFault::InvalidSecondaryLatitude { cause } => CsvFaultView::InvalidSecondaryLatitude {
                cause: *cause,
            },
            CsvFault::InvalidSecondaryLongitude { cause } => CsvFaultView::InvalidSecondaryLongitude {
                cause: *cause,
            },
        }
    }
}

impl View for ParseError {
    type V = ParseErrorView;

    open spec fn view(&self) -> ParseErrorView {
        match self {
            ParseError::UnknownValue { kind, value } => ParseErrorView::UnknownValue {
                kind: kind@,
                value: value@,
            },
            ParseError::InvalidSlurperCsv { line, reason } => ParseErrorView::InvalidSlurperCsv {
                line: *line,
                reason: reason@,
            },
        }
    }
}

/// A result taken by the views of its success and error values.
pub open spec fn result_view<T: View, E: View>(r: Result<T, E>) -> Result<T::V, E::V> {
    match r {
        Ok(t) => Ok(t@),
        Err(e) => Err(e@),
    }
}

impl IntFault {
    /// The message `ParseIntError` displays for this fault.
    pub open spec fn message(self) -> Seq<char> {
        match self {
            IntFault::Empty => "cannot parse integer from empty string"@,
            IntFault::InvalidDigit => "invalid digit found in string"@,
            IntFault::PosOverflow => "number too large to fit in target type"@,
        }
    }

    /// The message `ParseIntError` displays for this fault.
    pub fn text(&self) -> (r: &'static str)
        ensures
            r@ == self.message(),
    {
        match self {
            IntFault::Empty => "cannot parse integer from empty string",
            IntFault::InvalidDigit => "invalid digit found in string",
            IntFault::PosOverflow => "number too large to fit in target type",
        }
    }
}

impl FloatFault {
    /// The message `ParseFloatError` displays for this fault.
    pub open spec fn message(self) -> Seq<char> {
        match self {
            FloatFault::Empty => "cannot parse float from empty string"@,
            FloatFault::Invalid => "invalid float literal"@,
        }
    }

    /// The message `ParseFloatError` displays for this fault.
    pub fn text(&self) -> (r: &'static str)
        ensures
            r@ == self.message(),
    {
        match self {
            FloatFault::Empty => "cannot parse float from empty string",
            FloatFault::Invalid => "invalid float literal",
        }
    }
}

/// The reason a malformed line is reported with.
pub open spec fn csv_fault_text(f: CsvFaultView) -> Seq<char> {
    match f {
        CsvFaultView::TooFewFields { found } => "expected at least 7 fields, got "@ + decimal_text(
            found as nat,
        ),
        CsvFaultView::InvalidCid { cause } => "invalid CID: "@ + cause.message(),
        CsvFaultView::EmptyCallsign => "empty callsign"@,
        CsvFaultView::UnknownFacilityType { value } => "unknown facility type: "@ + value,
        CsvFaultView::InvalidVisualRange { cause } => "invalid visual range: "@ + cause.message(),
        CsvFaultView::InvalidLatitude { cause } => "invalid latitude: "@ + cause.message(),
        CsvFaultView::InvalidLongitude { cause } => "invalid longitude: "@ + cause.message(),
        CsvFaultView::InvalidSecondaryLatitude { cause } => "invalid secondary latitude: "@
            + cause.message(),
        CsvFaultView::InvalidSecondaryLongitude { cause } => "invalid secondary longitude: "@
            + cause.message(),
    }
}

/// The message a parse error displays.
pub open spec fn parse_error_text(e: ParseErrorView) -> Seq<char> {
    match e {
        ParseErrorView::UnknownValue { kind, value } => "unknown "@ + kind + ": "@ + value,
        ParseErrorView::InvalidSlurperCsv { line, reason } => "invalid slurper CSV at line "@
            + decimal_text(line as nat) + ": "@ + reason,
    }
}

impl CsvFault {
    /// The reason this fault is reported with, such as
    /// `invalid CID: invalid digit found in string`.
    pub fn text(&self) -> (r: String)
        ensures
            r@ == csv_fault_text(self@),
    {
        match self {
            CsvFault::TooFewFields { found } => {
                let mut r = String::from_str("expected at least 7 fields, got ");
                r.append(string_of(&usize_chars(*found)).as_str());
                r
            },
            CsvFault::InvalidCid { cause } => {
                let mut r = String::from_str("invalid CID: ");
                r.append(cause.text());
                r
            },
            CsvFault::EmptyCallsign => String::from_str("empty callsign"),
            CsvFault::UnknownFacilityType { value } => {
                let mut r = String::from_str("unknown facility type: ");
                r.append(value.as_str());
                r
            },
            CsvFault::InvalidVisualRange { cause } => {
                let mut r = String::from_str("invalid visual range: ");
                r.append(cause.text());
                r
            },
            CsvFault::InvalidLatitude { cause } => {
                let mut r = String::from_str("invalid latitude: ");
                r.append(cause.text());
                r
            },
            CsvFault::InvalidLongitude { cause } => {
                let mut r = String::from_str("invalid longitude: ");
                r.append(cause.text());
                r
            },
            CsvFault::InvalidSecondaryLatitude { cause } => {
                let mut r = String::from_str("invalid secondary latitude: ");
                r.append(cause.text());
                r
            },
            CsvFault::InvalidSecondaryLongitude { cause } => {
                let mut r = String::from_str("invalid secondary longitude: ");
                r.append(cause.text());
                r
            },
        }
    }
}

impl ParseError {
    /// The message this error displays, such as
    /// `invalid slurper CSV at line 3: empty callsign`.
    pub fn text(&self) -> (r: String)
        ensures
            r@ == parse_error_text(self@),
    {
        match self {
            ParseError::UnknownValue { kind, value } => {
                let mut r = String::from_str("unknown ");
                r.append(kind);
                r.append(": ");
                r.append(value.as_str());
                r
            },
            ParseError::InvalidSlurperCsv { line, reason } => {
                let mut r = String::from_str("invalid slurper CSV at line ");
                r.append(string_of(&usize_chars(*line)).as_str());
                r.append(": ");
                r.append(reason.as_str());
                r
            },
        }
    }
}

} // verus!
