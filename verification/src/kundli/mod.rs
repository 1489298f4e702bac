//! Public modules for kundli calculation.

pub mod astro;
pub mod calculate;
pub mod config;
pub mod derive;
pub mod error;
pub mod model;
pub mod text;
