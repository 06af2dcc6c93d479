//! A verified unit-conversion library.
//!
//! Given a unit category, a numeric value and a pair of unit names, the
//! library resolves each unit name to a scaling factor and yields the
//! ratio by which the value must be multiplied.  Only the length category
//! has a factor table; mass and temperature are placeholders that report
//! a `NotImplemented` error.
//!
//! Every length factor is an exact multiple of one ten-thousandth of a
//! metre, so factors are carried as integers scaled by
//! [`convert::FACTOR_SCALE`] and the lookup and dispatch logic is verified
//! exactly.  Applying the resulting [`convert::LinearRatio`] to a
//! floating-point value is left to the caller.

pub mod convert;
pub mod error;
pub mod text;
pub mod units;
