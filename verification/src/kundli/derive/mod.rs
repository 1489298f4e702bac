//! Deriving kundli structures (signs, houses, nakshatras, dasha periods)
//! from the prepared facts of astronomical longitudes.

pub mod d1;
pub mod d9;
pub mod dasha;
pub mod first_match;
pub mod house;
pub mod input;
pub mod nakshatra;
pub mod pipeline;
pub mod reference_points;
pub mod sign;
