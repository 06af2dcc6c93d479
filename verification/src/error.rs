//! The error taxonomy of the converter and the message each error carries.

use vstd::prelude::*;
use vstd::string::StringExecFns;

verus! {

/// Everything that can go wrong while parsing a request or resolving a
/// unit name.  The surface of the tool is a plain message string;
/// [`ParseError::message`] renders each variant.
#[derive(Debug, Clone, PartialEq)]
pub enum ParseError {
    /// The category token names no known unit category.
    UnknownCategory,
    /// The value token is not a number; the field carries the numeric
    /// parser's own description of the failure.
    InvalidNumber(String),
    /// The unit token is not in the category's factor table; the field
    /// carries the offending token in its original case.
    UnknownUnit(String),
    /// The category is recognized but has no conversion path yet.
    NotImplemented,
    /// Fewer positional arguments were supplied than the tool needs.
    MissingArguments,
}

/// The message text of each error variant.
pub open spec fn spec_message(e: ParseError) -> Seq<char> {
    match e {
        ParseError::UnknownCategory => "Unknown unit"@,
        ParseError::InvalidNumber(d) => d@,
        ParseError::UnknownUnit(t) => "Unknown unit: "@ + t@,
        ParseError::NotImplemented => "Not implemented"@,
        ParseError::MissingArguments => "Missing arguments"@,
    }
}

impl ParseError {
    /// Renders the error as the human-readable message the tool reports.
    pub fn message(&self) -> (r: String)
        ensures
            r@ == spec_message(*self),
    {
        match self {
            ParseError::UnknownCategory => "Unknown unit".to_owned(),
            ParseError::InvalidNumber(d) => d.clone(),
            ParseError::UnknownUnit(t) => "Unknown unit: ".to_owned().concat(t.as_str()),
            ParseError::NotImplemented => "Not implemented".to_owned(),
            ParseError::MissingArguments => "Missing arguments".to_owned(),
        }
    }
}

} // verus!
