//! The unit categories and the parser for a category token.

use vstd::prelude::*;
use crate::error::ParseError;
use crate::text::{str_eq, trim_string, trimmed_spec};

verus! {

/// A unit category.  Only [`Unit::Len`] has a conversion path; the other
/// two are placeholders that the dispatcher reports as not implemented.
#[derive(Debug, Clone, Copy, PartialEq, Eq, Structural)]
pub enum Unit {
    Len,
    Mass,
    Temp,
}

/// The category an (already trimmed) token names, if any.  The
/// temperature token is matched case-sensitively as `"Temp"`, unlike the
/// lowercase tokens of the other categories.  The asymmetry is kept
/// deliberately: normalizing it would silently change which tokens the
/// tool accepts.
pub open spec fn spec_unit_of(s: Seq<char>) -> Option<Unit> {
    if s == "len"@ {
        Some(Unit::Len)
    } else if s == "mass"@ {
        Some(Unit::Mass)
    } else if s == "Temp"@ {
        Some(Unit::Temp)
    } else {
        None
    }
}

impl Unit {
    /// Parses a category token that carries no surrounding whitespace.
    pub fn from_str(s: &str) -> (r: Result<Unit, ParseError>)
        ensures
            spec_unit_of(s@) matches Some(u) ==> r == Ok::<Unit, ParseError>(u),
            spec_unit_of(s@) is None ==> r == Err::<Unit, ParseError>(ParseError::UnknownCategory),
    {
        if str_eq(s, "len") {
            Ok(Unit::Len)
        } else if str_eq(s, "mass") {
            Ok(Unit::Mass)
        } else if str_eq(s, "Temp") {
            Ok(Unit::Temp)
        } else {
            Err(ParseError::UnknownCategory)
        }
    }
}

/// Parses a category argument: trims surrounding whitespace, then matches
/// the category token.
pub fn parse_unit(unit: &String) -> (r: Result<Unit, ParseError>)
    ensures
        spec_unit_of(trimmed_spec(unit@)) matches Some(u) ==> r == Ok::<Unit, ParseError>(u),
        spec_unit_of(trimmed_spec(unit@)) is None ==> r == Err::<Unit, ParseError>(
            ParseError::UnknownCategory,
        ),
{
    let trimmed = trim_string(unit.as_str());
    Unit::from_str(trimmed.as_str())
}

} // verus!
