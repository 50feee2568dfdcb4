//! Built-in format detection for the decoder plugins.

pub mod raster;
pub mod svg;

pub use raster::RasterDecoder;
