//! The command surface the library exposes to its driver: two subcommands,
//! padding and cropping, each over whole directories of tiles. Directories
//! are carried as plain path strings; the driver resolves them.
use vstd::prelude::*;

verus! {

/// The parsed command line: one of the two subcommands.
#[derive(Clone, Debug)]
pub struct BufferCliArgs {
    pub subcmd: Subaction,
}

/// Which operation a run performs.
#[derive(Clone, Debug)]
pub enum Subaction {
    /// Pads every raster file in a directory with a border of additional
    /// pixels sourced from the adjacent rasters through a mosaic file.
    Pad(PadCommand),
    /// Crops processed rasters back to the extent of the originals.
    Crop(CropCommand),
}

/// The padding run's configuration.
#[derive(Clone, Debug)]
pub struct PadCommand {
    /// The input raster directory.
    pub input: String,
    /// The output raster directory.
    pub output: String,
    /// The mosaic file describing the subject area, adjacent rasters
    /// included.
    pub vrt: String,
    /// The number of pixels to pad the rasters with.
    pub pad: u32,
}

/// The cropping run's configuration.
#[derive(Clone, Debug)]
pub struct CropCommand {
    /// The original raster directory that gives the extents to crop to.
    pub original: String,
    /// The input raster directory holding the padded files.
    pub input: String,
    /// The output raster directory.
    pub output: String,
}

} // verus!
