//! Astronomical settings, bodies, engine configuration and the plan that
//! drives the ephemeris backend.

mod engine;
mod ephemeris;
mod error;
mod request;

pub use engine::{SwissEphAstroEngine, SwissEphConfig};
pub use ephemeris::{
    body_computation, ephemeris_plan, node_source, path_is_passable, resolved_ephemeris_path,
    spec_body_computation, spec_node_source, BodyComputation, EphemerisPlan, EphemerisSource,
};
pub use error::AstroError;
pub use request::{
    astro_body_ordinal, AstroBody, AstroSettings, Ayanamsha, HouseSystem, NodeType, ZodiacType,
};
