//! Per-tile plans: the pixel windows to read and the metadata to give the
//! outputs, for padding a tile against a mosaic and for cropping a padded
//! tile back down to the original's footprint.
use vstd::prelude::*;
use crate::geo::{
    clamp_window, expand_origin, pixel_col_of_x, pixel_row_of_y, spec_clamped_extent,
    spec_expand_origin, world_to_pixel_offset, crop_offset, expanded_x_origin,
    expanded_y_origin, Geotransform,
};

verus! {

/// What an opened raster exposes to the planning logic: its size in pixels,
/// its geotransform and its projection string.
#[derive(Clone, Debug)]
pub struct RasterMeta {
    pub width: usize,
    pub height: usize,
    pub geotransform: Geotransform,
    pub projection: String,
}

impl RasterMeta {
    pub open spec fn wf(self) -> bool {
        self.geotransform.wf()
    }
}

/// Why one tile's operation failed. A tile that fails is skipped; the batch
/// goes on with the next one.
#[derive(Clone, Copy, PartialEq, Eq, Structural, Debug)]
pub enum TileError {
    /// The source raster could not be opened or its metadata read.
    TileOpen,
    /// A windowed read from a raster failed.
    IoRead,
    /// Creating or writing the output raster failed.
    IoWrite,
    /// The reference directory holds no same-named original for the tile.
    MissingCounterpart,
    /// The computed window holds no pixels inside the raster it would read.
    WindowOutOfBounds,
}

/// The plan for padding one tile: the window to read from the mosaic, and
/// the size, geotransform and projection of the output raster. The window is
/// written to the output at offset (0, 0).
#[derive(Clone, Debug)]
pub struct PadPlan {
    /// Column in the mosaic where the read window starts.
    pub read_col: usize,
    /// Row in the mosaic where the read window starts.
    pub read_row: usize,
    pub out_width: usize,
    pub out_height: usize,
    pub out_geotransform: Geotransform,
    pub out_projection: String,
}

/// The plan for cropping one padded tile: the window to read from it, and
/// the size, geotransform and projection of the output raster — the
/// original's own. The window is written to the output at offset (0, 0).
#[derive(Clone, Debug)]
pub struct CropPlan {
    /// Column in the padded raster where the read window starts.
    pub read_col: usize,
    /// Row in the padded raster where the read window starts.
    pub read_row: usize,
    pub out_width: usize,
    pub out_height: usize,
    pub out_geotransform: Geotransform,
    pub out_projection: String,
}

/// Column in the mosaic of the padded tile's expanded origin, clamped at the
/// mosaic's left edge.
pub open spec fn pad_read_col(tile: RasterMeta, mosaic: RasterMeta, margin: int) -> int {
    pixel_col_of_x(expanded_x_origin(tile.geotransform, margin), mosaic.geotransform)
}

/// Row in the mosaic of the padded tile's expanded origin, clamped at the
/// mosaic's top edge.
pub open spec fn pad_read_row(tile: RasterMeta, mosaic: RasterMeta, margin: int) -> int {
    pixel_row_of_y(expanded_y_origin(tile.geotransform, margin), mosaic.geotransform)
}

/// Width of the padded output: the tile's width plus a margin on each side,
/// capped at what remains of the mosaic past the read column.
pub open spec fn pad_out_width(tile: RasterMeta, mosaic: RasterMeta, margin: int) -> int {
    spec_clamped_extent(
        pad_read_col(tile, mosaic, margin),
        mosaic.width as int,
        tile.width as int,
        margin,
    )
}

/// Height of the padded output, capped likewise.
pub open spec fn pad_out_height(tile: RasterMeta, mosaic: RasterMeta, margin: int) -> int {
    spec_clamped_extent(
        pad_read_row(tile, mosaic, margin),
        mosaic.height as int,
        tile.height as int,
        margin,
    )
}

/// Whether the clamped read window holds at least one pixel on both axes;
/// exactly when it does, padding the tile has a plan.
pub open spec fn pad_window_nonempty(tile: RasterMeta, mosaic: RasterMeta, margin: int) -> bool {
    pad_out_width(tile, mosaic, margin) > 0 && pad_out_height(tile, mosaic, margin) > 0
}

/// What a correct padding plan for `tile` against `mosaic` says.
pub open spec fn pad_plan_matches(
    tile: RasterMeta,
    mosaic: RasterMeta,
    margin: int,
    p: PadPlan,
) -> bool {
    &&& p.read_col == pad_read_col(tile, mosaic, margin)
    &&& p.read_row == pad_read_row(tile, mosaic, margin)
    &&& p.out_width == pad_out_width(tile, mosaic, margin)
    &&& p.out_height == pad_out_height(tile, mosaic, margin)
    &&& p.out_geotransform == spec_expand_origin(tile.geotransform, margin)
    &&& p.out_projection == tile.projection
}

/// Plans the padding of one tile: where in the mosaic the expanded window
/// starts, how large the output is after clamping at the mosaic's bounds,
/// and the output's shifted geotransform. Fails exactly when the clamped
/// window holds no pixels.
pub fn pad_plan(tile: &RasterMeta, mosaic: &RasterMeta, margin: usize) -> (r: Result<
    PadPlan,
    TileError,
>)
    requires
        tile.wf(),
        mosaic.wf(),
        i64::MIN <= expanded_x_origin(tile.geotransform, margin as int) <= i64::MAX,
        i64::MIN <= expanded_y_origin(tile.geotransform, margin as int) <= i64::MAX,
    ensures
        r is Ok <==> pad_window_nonempty(*tile, *mosaic, margin as int),
        r matches Ok(p) ==> pad_plan_matches(*tile, *mosaic, margin as int, p)
            && p.read_col + p.out_width <= mosaic.width
            && p.read_row + p.out_height <= mosaic.height
            && p.out_width >= 1
            && p.out_height >= 1
            && p.out_geotransform.wf(),
        r matches Err(e) ==> e == TileError::WindowOutOfBounds,
{
    let out_geotransform = expand_origin(&tile.geotransform, margin);
    let (col, row) = world_to_pixel_offset(
        out_geotransform.x_origin,
        out_geotransform.y_origin,
        &mosaic.geotransform,
    );
    let width = clamp_window(col, mosaic.width, tile.width, margin);
    let height = clamp_window(row, mosaic.height, tile.height, margin);
    match (width, height) {
        (Some(w), Some(h)) => Ok(
            PadPlan {
                read_col: col as usize,
                read_row: row as usize,
                out_width: w,
                out_height: h,
                out_geotransform,
                out_projection: tile.projection.clone(),
            },
        ),
        _ => Err(TileError::WindowOutOfBounds),
    }
}

/// Column in the padded raster of the original tile's origin: the world
/// difference divided by the pixel width, truncated towards zero and
/// saturated at zero.
pub open spec fn crop_read_col(original: Geotransform, padded: Geotransform) -> int {
    crop_offset(original.x_origin - padded.x_origin, padded.pixel_width as int)
}

/// Row in the padded raster of the original tile's origin, by the same rule
/// on the y axis, where the origins' order is flipped by the negative pixel
/// height.
pub open spec fn crop_read_row(original: Geotransform, padded: Geotransform) -> int {
    crop_offset(padded.y_origin - original.y_origin, padded.abs_pixel_height())
}

/// Whether a window of the original's size at the computed offset lies
/// wholly inside the padded raster; exactly when it does, cropping has a
/// plan.
pub open spec fn crop_window_fits(original: RasterMeta, padded: RasterMeta) -> bool {
    &&& crop_read_col(original.geotransform, padded.geotransform) + original.width
        <= padded.width
    &&& crop_read_row(original.geotransform, padded.geotransform) + original.height
        <= padded.height
}

/// What a correct cropping plan for `original` against `padded` says: read
/// the original's footprint out of the padded raster, give the output the
/// original's size, geotransform and projection.
pub open spec fn crop_plan_matches(
    original: RasterMeta,
    padded: RasterMeta,
    p: CropPlan,
) -> bool {
    &&& p.read_col == crop_read_col(original.geotransform, padded.geotransform)
    &&& p.read_row == crop_read_row(original.geotransform, padded.geotransform)
    &&& p.out_width == original.width
    &&& p.out_height == original.height
    &&& p.out_geotransform == original.geotransform
    &&& p.out_projection == original.projection
}

/// Plans the cropping of one padded tile back to the original's footprint.
/// Fails exactly when the original-sized window at the computed offset would
/// reach past the padded raster's bounds.
pub fn crop_plan(original: &RasterMeta, padded: &RasterMeta) -> (r: Result<CropPlan, TileError>)
    requires
        original.wf(),
        padded.wf(),
    ensures
        r is Ok <==> crop_window_fits(*original, *padded),
        r matches Ok(p) ==> crop_plan_matches(*original, *padded, p),
        r matches Err(e) ==> e == TileError::WindowOutOfBounds,
{
    let dx: i128 = original.geotransform.x_origin as i128 - padded.geotransform.x_origin as i128;
    let pw: i128 = padded.geotransform.pixel_width as i128;
    let col: i128 = if dx <= 0 {
        0
    } else {
        proof {
            vstd::arithmetic::div_mod::lemma_div_pos_is_pos(dx as int, pw as int);
            vstd::arithmetic::div_mod::lemma_div_nonincreasing(dx as int, pw as int);
        }
        ((dx as u128) / (pw as u128)) as i128
    };
    let dy: i128 = padded.geotransform.y_origin as i128 - original.geotransform.y_origin as i128;
    let step: i128 = -(padded.geotransform.pixel_height as i128);
    let row: i128 = if dy <= 0 {
        0
    } else {
        proof {
            vstd::arithmetic::div_mod::lemma_div_pos_is_pos(dy as int, step as int);
            vstd::arithmetic::div_mod::lemma_div_nonincreasing(dy as int, step as int);
        }
        ((dy as u128) / (step as u128)) as i128
    };
    if col + original.width as i128 <= padded.width as i128 && row + original.height as i128
        <= padded.height as i128 {
        Ok(
            CropPlan {
                read_col: col as usize,
                read_row: row as usize,
                out_width: original.width,
                out_height: original.height,
                out_geotransform: original.geotransform,
                out_projection: original.projection.clone(),
            },
        )
    } else {
        Err(TileError::WindowOutOfBounds)
    }
}

/// Plans the cropping of one padded tile when the reference directory may
/// lack its original: a missing counterpart fails the tile, anything else
/// goes through `crop_plan`.
pub fn crop_plan_with_reference(original: Option<&RasterMeta>, padded: &RasterMeta) -> (r: Result<
    CropPlan,
    TileError,
>)
    requires
        original matches Some(o) ==> o.wf(),
        padded.wf(),
    ensures
        original is None ==> r == Result::<CropPlan, TileError>::Err(
            TileError::MissingCounterpart,
        ),
        original matches Some(o) ==> {
            &&& r is Ok <==> crop_window_fits(*o, *padded)
            &&& (r matches Ok(p) ==> crop_plan_matches(*o, *padded, p))
            &&& (r matches Err(e) ==> e == TileError::WindowOutOfBounds)
        },
{
    match original {
        None => Err(TileError::MissingCounterpart),
        Some(o) => crop_plan(o, padded),
    }
}

} // verus!
