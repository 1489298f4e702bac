use vstd::prelude::*;

verus! {

/// Errors returned by the astronomical calculation layer.
///
/// Floating-point payloads are carried as their IEEE-754 bit patterns
/// (`f64::to_bits`), so the rejected value is kept exactly.
#[derive(Debug, Clone, PartialEq)]
pub enum AstroError {
    /// The provided Julian day is not finite.
    InvalidJulianDay(u64),
    /// The provided latitude or longitude is out of range or not finite.
    InvalidCoordinates { latitude: u64, longitude: u64 },
    /// The configured ephemeris path cannot be passed to the backend.
    InvalidEphemerisPath,
    /// The underlying astronomical backend reported a calculation failure.
    CalculationFailed(String),
}

} // verus!
