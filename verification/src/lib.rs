//! Verified core of a spectral film-simulation engine.

pub mod model;
pub mod profiles;
pub mod runtime;
pub mod utils;
