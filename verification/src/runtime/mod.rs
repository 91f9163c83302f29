//! Runtime parameters and pipeline decisions.

pub mod params;
pub mod pipeline;
pub mod presets;
