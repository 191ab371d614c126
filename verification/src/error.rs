//! Error values produced by the record decoders and the field-level parsers.
use vstd::prelude::*;
use vstd::string::StringExecFns;

verus! {

/// The error taxonomy of this layer. Each variant carries a human-readable
/// message that includes the offending raw text, so a caller can report
/// exactly which line (or field) was malformed.
#[derive(Debug, Clone)]
pub enum IGCError {
    /// A line could not be decoded as a data fix record.
    DataFixInitError(String),
    /// A line could not be decoded as any kind of task info record.
    TaskInfoInitError(String),
    /// A six-character field could not be decoded as a time of day.
    TimeInitError(String),
    /// A six-character field could not be decoded as a date.
    DateInitError(String),
    /// A seventeen-character field could not be decoded as a coordinate.
    CoordinateInitError(String),
}

/// The text produced by [`quoted_message`]: a single quote, the offending
/// text verbatim, then `suffix` (whose first character closes the quote).
pub open spec fn spec_quoted(text: Seq<char>, suffix: Seq<char>) -> Seq<char> {
    "'"@ + text + suffix
}

/// Builds an error message of the shape `'<text><suffix>`, e.g.
/// `'F160' is too short to be parsed as a data fix`.
pub fn quoted_message(text: &str, suffix: &str) -> (r: String)
    ensures
        r@ == spec_quoted(text@, suffix@),
{
    let mut m = String::from_str("'");
    m.append(text);
    m.append(suffix);
    m
}

} // verus!
