//! Shared helpers: text and byte handling, colour-space names, image
//! buffer geometry and look-up-table file formats.

pub mod text;
pub mod image_buffers;
pub mod spectral_upsampling;
pub mod conversions;
pub mod crop_resize;
pub mod gaussian;
pub mod autoexposure;
