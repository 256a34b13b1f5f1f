//! Padding and trimming of georeferenced raster tiles against a mosaic grid.
//!
//! The library computes the pixel-window plans behind two operations: padding
//! a tile with a margin of border pixels sourced from a mosaic, and cropping a
//! padded tile back down to the original tile's footprint. All coordinate and
//! window arithmetic is verified; reading and writing the raster files
//! themselves is left to the caller.
pub mod args;
pub mod batch;
pub mod geo;
pub mod laws;
pub mod plan;
