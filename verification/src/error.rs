//! The ways in which the parsing of a file can fail.

use vstd::prelude::*;

verus! {

/// Why the parsing of a file was given up. An error ends the file it occurs
/// in and gives no records for it.
#[derive(Debug, Clone, Copy, PartialEq, Eq, Structural)]
pub enum ParseError {
    /// A data line is long enough for the declared columns, but the
    /// declaration gives no usable position for a field that every record
    /// must have.
    MissingField,
    /// The time stamp of a data line is not an RFC 3339 date and time.
    InvalidTimestamp,
    /// The sequence number of an SMTP line is not a 32-bit decimal integer.
    InvalidSequenceNumber,
    /// A pattern for the free-text columns cannot be used. The patterns are
    /// fixed, so this speaks of the library and not of the file.
    InvalidPattern,
}

impl ParseError {
    /// The text of the message for `self`.
    pub open spec fn message_text(self) -> Seq<char> {
        match self {
            ParseError::MissingField => "a required column is missing"@,
            ParseError::InvalidTimestamp => "failed to parse date"@,
            ParseError::InvalidSequenceNumber => "failed to parse sequence number"@,
            ParseError::InvalidPattern => "a search pattern cannot be used"@,
        }
    }

    /// A message for people.
    pub fn message(&self) -> (text: String)
        ensures
            text@ == self.message_text(),
    {
        match self {
            ParseError::MissingField => "a required column is missing".to_owned(),
            ParseError::InvalidTimestamp => "failed to parse date".to_owned(),
            ParseError::InvalidSequenceNumber => "failed to parse sequence number".to_owned(),
            ParseError::InvalidPattern => "a search pattern cannot be used".to_owned(),
        }
    }
}

} // verus!
