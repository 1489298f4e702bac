//! Prepared facts about longitudes, as the derive layer reads them.
//!
//! A longitude enters derivation already normalized into `[0, 360)`; what the
//! derivations read of it is its order key (for comparisons with house
//! cusps), its sign index (the 30-degree slot), its nakshatra index (the
//! 360/27-degree slot) and its pada number (one more than the quarter of the
//! nakshatra it lies in).

use vstd::prelude::*;

use crate::kundli::astro::AstroBody;

verus! {

/// What derivation reads of one normalized longitude.
#[derive(Debug, Clone, Copy, PartialEq, Eq, Structural)]
pub struct PreparedPoint {
    /// Order key of the longitude: compares as the longitudes do.
    pub order_key: u64,
    /// Sign slot, `0..12`.
    pub sign_index: u8,
    /// Nakshatra slot, `0..27`.
    pub nakshatra_index: u8,
    /// One-based pada number; valid padas are `1..=4`.
    pub pada_number: u8,
}

impl PreparedPoint {
    /// Slots within their ranges.
    pub open spec fn wf(self) -> bool {
        self.sign_index < 12 && self.nakshatra_index < 27
    }
}

/// A prepared body: its identity, its longitude facts and whether it moves
/// retrograde.
#[derive(Debug, Clone, Copy, PartialEq, Eq, Structural)]
pub struct PreparedBody {
    pub body: AstroBody,
    pub point: PreparedPoint,
    pub is_retrograde: bool,
}

/// A prepared house cusp: its order key and its sign slot.
#[derive(Debug, Clone, Copy, PartialEq, Eq, Structural)]
pub struct PreparedCusp {
    pub order_key: u64,
    pub sign_index: u8,
}

/// Everything a chart derivation reads: the ascendant and the bodies (after
/// any sign transform) and the reported house cusps.
#[derive(Debug, Clone, PartialEq, Eq)]
pub struct ChartInput {
    pub ascendant: PreparedPoint,
    pub bodies: Vec<PreparedBody>,
    pub cusps: Vec<PreparedCusp>,
}

impl ChartInput {
    /// Every slot within its range.
    pub open spec fn wf(&self) -> bool {
        &&& self.ascendant.wf()
        &&& forall|i: int| 0 <= i < self.bodies@.len() ==> (#[trigger] self.bodies@[i]).point.wf()
        &&& forall|i: int| 0 <= i < self.cusps@.len() ==> (#[trigger] self.cusps@[i]).sign_index < 12
    }
}

} // verus!
