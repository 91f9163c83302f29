//! Film, paper and optical model metadata.

pub mod stocks;
pub mod diffusion;
pub mod color_filters;
pub mod illuminants;
