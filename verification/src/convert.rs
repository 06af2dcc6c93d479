//! The length factor table and the linear conversion engine.

use vstd::prelude::*;
use crate::error::ParseError;
use crate::text::{lower_of, lowercase, str_eq};
use crate::units::Unit;

verus! {

/// Factors are carried as integers scaled by this constant: a unit whose
/// factor entry is `n` measures `n / FACTOR_SCALE` metres.  Every entry
/// of the length table is exact at this scale.
pub const FACTOR_SCALE: u64 = 10000;

/// The length factor table over lowercase tokens, scaled by
/// [`FACTOR_SCALE`]: metres and their synonyms, kilometres, centimetres,
/// millimetres, miles, feet and inches.
pub open spec fn spec_len_factor(token: Seq<char>) -> Option<u64> {
    if token == "m"@ || token == "meter"@ || token == "meters"@ {
        Some(10000u64)
    } else if token == "km"@ {
        Some(10000000u64)
    } else if token == "cm"@ {
        Some(100u64)
    } else if token == "mm"@ {
        Some(10u64)
    } else if token == "mile"@ {
        Some(16093400u64)
    } else if token == "ft"@ {
        Some(3048u64)
    } else if token == "in"@ {
        Some(254u64)
    } else {
        None
    }
}

/// Looks an exact (already lowercased) token up in the length factor
/// table.
pub fn lookup_len_factor(token: &str) -> (r: Option<u64>)
    ensures
        r == spec_len_factor(token@),
{
    if str_eq(token, "m") || str_eq(token, "meter") || str_eq(token, "meters") {
        Some(10000)
    } else if str_eq(token, "km") {
        Some(10000000)
    } else if str_eq(token, "cm") {
        Some(100)
    } else if str_eq(token, "mm") {
        Some(10)
    } else if str_eq(token, "mile") {
        Some(16093400)
    } else if str_eq(token, "ft") {
        Some(3048)
    } else if str_eq(token, "in") {
        Some(254)
    } else {
        None
    }
}

/// Looks a length unit name up case-insensitively and returns its scaled
/// factor; an unknown name is reported with the token in its original
/// case.
pub fn get_len_factor(value: &String) -> (r: Result<u64, ParseError>)
    ensures
        spec_len_factor(lower_of(value@)) matches Some(f) ==> r == Ok::<u64, ParseError>(f),
        spec_len_factor(lower_of(value@)) is None ==> (r matches Err(e)
            && e matches ParseError::UnknownUnit(t) && t@ == value@),
{
    let low = lowercase(value.as_str());
    match lookup_len_factor(low.as_str()) {
        Some(f) => Ok(f),
        None => Err(ParseError::UnknownUnit(value.clone())),
    }
}

/// A family of units convertible by pure ratios: each unit name resolves
/// to a scaled factor relative to the family's base unit.  The engine is
/// generic over this lookup so that further linear families (mass,
/// density, ...) only need a factor table of their own.
pub trait FactorSource {
    /// The scaled factor a token resolves to, if any.
    spec fn factor_spec(&self, token: Seq<char>) -> Option<u64>;

    /// Resolves a unit name to its scaled factor; an unknown name is
    /// reported with the token in its original case.
    fn get_factor(&self, value: &String) -> (r: Result<u64, ParseError>)
        ensures
            self.factor_spec(value@) matches Some(f) ==> r == Ok::<u64, ParseError>(f),
            self.factor_spec(value@) is None ==> (r matches Err(e)
                && e matches ParseError::UnknownUnit(t) && t@ == value@),
    ;
}

/// The length family: the fixed table of [`spec_len_factor`], matched
/// case-insensitively.
pub struct LengthUnits;

impl FactorSource for LengthUnits {
    open spec fn factor_spec(&self, token: Seq<char>) -> Option<u64> {
        spec_len_factor(lower_of(token))
    }

    fn get_factor(&self, value: &String) -> (r: Result<u64, ParseError>) {
        get_len_factor(value)
    }
}

/// The outcome of a conversion: the value expressed in `from` units is
/// the value expressed in `to` units times `from_factor / to_factor`.
/// The common [`FACTOR_SCALE`] cancels in the quotient.
#[derive(Debug, Clone, Copy, PartialEq, Eq, Structural)]
pub struct LinearRatio {
    pub from_factor: u64,
    pub to_factor: u64,
}

/// The ratio a factor source yields for a pair of unit names, if both
/// resolve.
pub open spec fn source_ratio<T: FactorSource>(
    units: &T,
    from: Seq<char>,
    to: Seq<char>,
) -> Option<LinearRatio> {
    match (units.factor_spec(from), units.factor_spec(to)) {
        (Some(ff), Some(tf)) => Some(LinearRatio { from_factor: ff, to_factor: tf }),
        _ => None,
    }
}

/// Resolves both unit names against one factor source.  A failure on the
/// source unit short-circuits: the destination unit is not consulted.
pub fn calculate_linear<T: FactorSource>(
    units: &T,
    from: &String,
    to: &String,
) -> (r: Result<LinearRatio, ParseError>)
    ensures
        source_ratio(units, from@, to@) matches Some(ra) ==> r == Ok::<
            LinearRatio,
            ParseError,
        >(ra),
        units.factor_spec(from@) is None ==> (r matches Err(e)
            && e matches ParseError::UnknownUnit(t) && t@ == from@),
        (units.factor_spec(from@) is Some && units.factor_spec(to@) is None) ==> (r matches Err(
            e,
        ) && e matches ParseError::UnknownUnit(t) && t@ == to@),
{
    let from_factor = match units.get_factor(from) {
        Ok(f) => f,
        Err(e) => {
            return Err(e);
        },
    };
    let to_factor = match units.get_factor(to) {
        Ok(f) => f,
        Err(e) => {
            return Err(e);
        },
    };
    Ok(LinearRatio { from_factor, to_factor })
}

/// The ratio of a length conversion over the raw (original-case) unit
/// names, if both are known.
pub open spec fn spec_ratio(from: Seq<char>, to: Seq<char>) -> Option<LinearRatio> {
    match (spec_len_factor(lower_of(from)), spec_len_factor(lower_of(to))) {
        (Some(ff), Some(tf)) => Some(LinearRatio { from_factor: ff, to_factor: tf }),
        _ => None,
    }
}

/// Routes a conversion request to the engine of its category.  Length
/// conversions use the length factor table; mass and temperature have no
/// conversion path and report `NotImplemented`.
pub fn calculate(unit: Unit, from: &String, to: &String) -> (r: Result<LinearRatio, ParseError>)
    ensures
        unit == Unit::Len ==> (spec_ratio(from@, to@) matches Some(ra) ==> r == Ok::<
            LinearRatio,
            ParseError,
        >(ra)),
        (unit == Unit::Len && spec_len_factor(lower_of(from@)) is None) ==> (r matches Err(e)
            && e matches ParseError::UnknownUnit(t) && t@ == from@),
        (unit == Unit::Len && spec_len_factor(lower_of(from@)) is Some && spec_len_factor(
            lower_of(to@),
        ) is None) ==> (r matches Err(e) && e matches ParseError::UnknownUnit(t) && t@ == to@),
        unit != Unit::Len ==> r == Err::<LinearRatio, ParseError>(ParseError::NotImplemented),
{
    match unit {
        Unit::Len => calculate_linear(&LengthUnits, from, to),
        Unit::Mass => Err(ParseError::NotImplemented),
        Unit::Temp => Err(ParseError::NotImplemented),
    }
}

/// Converting between a pair of units and back multiplies by reciprocal
/// ratios: the reverse conversion swaps the two factors, so the product
/// of the two exact ratios is one.
pub proof fn lemma_ratio_swap(u1: Seq<char>, u2: Seq<char>)
    ensures
        spec_ratio(u1, u2) matches Some(r12) ==> (spec_ratio(u2, u1) matches Some(r21)
            && r21.from_factor == r12.to_factor && r21.to_factor == r12.from_factor
            && r12.from_factor * r21.from_factor == r12.to_factor * r21.to_factor),
{
    match (spec_len_factor(lower_of(u1)), spec_len_factor(lower_of(u2))) {
        (Some(f1), Some(f2)) => {
            assert(f1 * f2 == f2 * f1) by (nonlinear_arith);
        },
        _ => {},
    }
}

/// Converting a value from a unit to itself scales it by a ratio of two
/// equal factors, and such a ratio exists for every known unit.
pub proof fn lemma_identity_ratio(u: Seq<char>)
    ensures
        spec_len_factor(lower_of(u)) is Some ==> spec_ratio(u, u) is Some,
        spec_ratio(u, u) matches Some(ra) ==> ra.from_factor == ra.to_factor,
{
}

/// Unit names are matched case-insensitively: two requests whose unit
/// names agree up to case yield the same ratio.
pub proof fn lemma_case_insensitive(a: Seq<char>, b: Seq<char>, c: Seq<char>, d: Seq<char>)
    ensures
        (lower_of(a) == lower_of(c) && lower_of(b) == lower_of(d)) ==> spec_ratio(a, b)
            == spec_ratio(c, d),
{
}

/// Every factor of the length table is positive, so neither factor of a
/// ratio the length engine yields is zero.
pub proof fn lemma_factor_positive(token: Seq<char>)
    ensures
        spec_len_factor(token) matches Some(f) ==> 0 < f,
{
}

} // verus!
