//! The laws the planning algebra obeys: padding followed by cropping is the
//! identity on a tile's footprint, window sizes never reach past the mosaic,
//! offsets are never negative, and cropping is deterministic.
use vstd::prelude::*;
use crate::geo::{
    expanded_x_origin, expanded_y_origin, spec_expand_origin, Geotransform,
};
use crate::plan::{
    crop_plan_matches, crop_read_col, crop_read_row, crop_window_fits, pad_out_height,
    pad_out_width, pad_read_col, pad_read_row, CropPlan, RasterMeta,
};
use vstd::arithmetic::div_mod::{lemma_div_by_multiple, lemma_fundamental_div_mod};
use vstd::arithmetic::mul::{
    lemma_mul_is_commutative, lemma_mul_is_distributive_sub, lemma_mul_strictly_positive,
    lemma_mul_unary_negation,
};

verus! {

/// The column of the mosaic pixel under the tile's own origin.
pub open spec fn tile_col_in_mosaic(tile: RasterMeta, mosaic: RasterMeta) -> int {
    (tile.geotransform.x_origin - mosaic.geotransform.x_origin)
        / (mosaic.geotransform.pixel_width as int)
}

/// The row of the mosaic pixel under the tile's own origin.
pub open spec fn tile_row_in_mosaic(tile: RasterMeta, mosaic: RasterMeta) -> int {
    (mosaic.geotransform.y_origin - tile.geotransform.y_origin)
        / mosaic.geotransform.abs_pixel_height()
}

/// The tile lies on the mosaic's pixel grid: same pixel size on both axes,
/// and the origins differ by whole pixels. Padding and cropping assume
/// co-registered rasters; this says what that means.
pub open spec fn grid_aligned(tile: RasterMeta, mosaic: RasterMeta) -> bool {
    &&& tile.geotransform.pixel_width == mosaic.geotransform.pixel_width
    &&& tile.geotransform.pixel_height == mosaic.geotransform.pixel_height
    &&& (tile.geotransform.x_origin - mosaic.geotransform.x_origin)
        % (mosaic.geotransform.pixel_width as int) == 0
    &&& (mosaic.geotransform.y_origin - tile.geotransform.y_origin)
        % mosaic.geotransform.abs_pixel_height() == 0
}

/// The tile, expanded by `margin` pixels on every side, still lies wholly
/// inside the mosaic: no side of the margin is clamped away.
pub open spec fn expanded_window_inside_mosaic(
    tile: RasterMeta,
    mosaic: RasterMeta,
    margin: int,
) -> bool {
    &&& tile_col_in_mosaic(tile, mosaic) - margin >= 0
    &&& tile_row_in_mosaic(tile, mosaic) - margin >= 0
    &&& tile_col_in_mosaic(tile, mosaic) + tile.width + margin <= mosaic.width
    &&& tile_row_in_mosaic(tile, mosaic) + tile.height + margin <= mosaic.height
}

/// The raster that a padding plan creates, as the cropper will meet it.
pub open spec fn padded_raster_of(tile: RasterMeta, mosaic: RasterMeta, margin: int) -> RasterMeta {
    RasterMeta {
        width: pad_out_width(tile, mosaic, margin) as usize,
        height: pad_out_height(tile, mosaic, margin) as usize,
        geotransform: spec_expand_origin(tile.geotransform, margin),
        projection: tile.projection,
    }
}

/// Round trip: for every grid-aligned tile whose expanded window stays
/// inside the mosaic, and every non-negative margin, padding reads a full
/// `tile + 2 * margin` window starting `margin` pixels up and left of the
/// tile, and cropping the padded raster finds the tile `margin` pixels in on
/// both axes, fits inside it, and reads back exactly the mosaic window the
/// tile itself covers. Together with `crop_plan`'s contract — the output
/// carries the original's size, geotransform and projection — the cropped
/// result reproduces the original raster over the mosaic's pixels.
///
/// Where the expanded window leaves the mosaic the offsets are clamped, the
/// padded raster's pixels shift against its geotransform, and the read-back
/// window no longer matches; such tiles are left out here.
pub proof fn lemma_pad_crop_round_trip(tile: RasterMeta, mosaic: RasterMeta, margin: int)
    requires
        tile.wf(),
        mosaic.wf(),
        margin >= 0,
        grid_aligned(tile, mosaic),
        expanded_window_inside_mosaic(tile, mosaic, margin),
        i64::MIN <= expanded_x_origin(tile.geotransform, margin) <= i64::MAX,
        i64::MIN <= expanded_y_origin(tile.geotransform, margin) <= i64::MAX,
    ensures
        pad_read_col(tile, mosaic, margin) == tile_col_in_mosaic(tile, mosaic) - margin,
        pad_read_row(tile, mosaic, margin) == tile_row_in_mosaic(tile, mosaic) - margin,
        pad_out_width(tile, mosaic, margin) == tile.width + 2 * margin,
        pad_out_height(tile, mosaic, margin) == tile.height + 2 * margin,
        crop_read_col(tile.geotransform, spec_expand_origin(tile.geotransform, margin)) == margin,
        crop_read_row(tile.geotransform, spec_expand_origin(tile.geotransform, margin)) == margin,
        crop_window_fits(tile, padded_raster_of(tile, mosaic, margin)),
        pad_read_col(tile, mosaic, margin) + crop_read_col(
            tile.geotransform,
            spec_expand_origin(tile.geotransform, margin),
        ) == tile_col_in_mosaic(tile, mosaic),
        pad_read_row(tile, mosaic, margin) + crop_read_row(
            tile.geotransform,
            spec_expand_origin(tile.geotransform, margin),
        ) == tile_row_in_mosaic(tile, mosaic),
{
    let gt = tile.geotransform;
    let pw = mosaic.geotransform.pixel_width as int;
    let ph = mosaic.geotransform.pixel_height as int;
    let ha = mosaic.geotransform.abs_pixel_height();
    let tc = tile_col_in_mosaic(tile, mosaic);
    let tr = tile_row_in_mosaic(tile, mosaic);

    // The origins differ by whole pixels, so the floor divisions are exact.
    lemma_fundamental_div_mod(gt.x_origin - mosaic.geotransform.x_origin, pw);
    lemma_mul_is_commutative(pw, tc);
    assert(gt.x_origin - mosaic.geotransform.x_origin == tc * pw);
    lemma_fundamental_div_mod(mosaic.geotransform.y_origin - gt.y_origin, ha);
    lemma_mul_is_commutative(ha, tr);
    assert(mosaic.geotransform.y_origin - gt.y_origin == tr * ha);

    // Where the expanded origin falls in the mosaic.
    assert(expanded_x_origin(gt, margin) - mosaic.geotransform.x_origin == (tc - margin) * pw) by {
        lemma_mul_is_distributive_sub(pw, tc, margin);
        lemma_mul_is_commutative(pw, tc - margin);
        lemma_mul_is_commutative(pw, margin);
    }
    lemma_div_by_multiple(tc - margin, pw);
    assert(pad_read_col(tile, mosaic, margin) == tc - margin);

    assert(mosaic.geotransform.y_origin - expanded_y_origin(gt, margin) == (tr - margin) * ha) by {
        lemma_mul_unary_negation(margin, ph);
        assert(margin * ha == -(margin * ph));
        lemma_mul_is_distributive_sub(ha, tr, margin);
        lemma_mul_is_commutative(ha, tr - margin);
        lemma_mul_is_commutative(ha, margin);
    }
    lemma_div_by_multiple(tr - margin, ha);
    assert(pad_read_row(tile, mosaic, margin) == tr - margin);

    // Nothing is clamped, so the window keeps its full asked-for size.
    assert(pad_out_width(tile, mosaic, margin) == tile.width + 2 * margin);
    assert(pad_out_height(tile, mosaic, margin) == tile.height + 2 * margin);

    // The cropper finds the tile margin pixels into the padded raster.
    let padded_gt = spec_expand_origin(gt, margin);
    assert(gt.x_origin - padded_gt.x_origin == margin * pw);
    assert(padded_gt.y_origin - gt.y_origin == margin * ha) by {
        lemma_mul_unary_negation(margin, ph);
    }
    if margin == 0 {
        assert(margin * pw == 0) by {
            lemma_mul_is_commutative(margin, pw);
        }
        assert(margin * ha == 0) by {
            lemma_mul_is_commutative(margin, ha);
        }
    } else {
        lemma_mul_strictly_positive(margin, pw);
        lemma_mul_strictly_positive(margin, ha);
        lemma_div_by_multiple(margin, pw);
        lemma_div_by_multiple(margin, ha);
    }
    assert(crop_read_col(gt, padded_gt) == margin);
    assert(crop_read_row(gt, padded_gt) == margin);
}

/// Margin clamp: the padded output never exceeds what remains of the mosaic
/// past the read offset, and where the expanded window would reach past the
/// mosaic's right or bottom edge, the output is strictly smaller than
/// `tile + 2 * margin` on that axis.
pub proof fn lemma_margin_clamp(tile: RasterMeta, mosaic: RasterMeta, margin: int)
    requires
        tile.wf(),
        mosaic.wf(),
        margin >= 0,
    ensures
        pad_out_width(tile, mosaic, margin) <= mosaic.width - pad_read_col(tile, mosaic, margin),
        pad_out_height(tile, mosaic, margin) <= mosaic.height - pad_read_row(tile, mosaic, margin),
        mosaic.width - pad_read_col(tile, mosaic, margin) < tile.width + 2 * margin
            ==> pad_out_width(tile, mosaic, margin) < tile.width + 2 * margin,
        mosaic.height - pad_read_row(tile, mosaic, margin) < tile.height + 2 * margin
            ==> pad_out_height(tile, mosaic, margin) < tile.height + 2 * margin,
{
}

/// Non-negative offsets: wherever a tile's expanded origin lies — even
/// outside the mosaic's extent — the planned read offsets into the mosaic,
/// and the cropper's read offsets into a padded raster, are at least zero.
pub proof fn lemma_offsets_nonnegative(
    tile: RasterMeta,
    mosaic: RasterMeta,
    margin: int,
    original: Geotransform,
    padded: Geotransform,
)
    requires
        tile.wf(),
        mosaic.wf(),
        original.wf(),
        padded.wf(),
    ensures
        pad_read_col(tile, mosaic, margin) >= 0,
        pad_read_row(tile, mosaic, margin) >= 0,
        crop_read_col(original, padded) >= 0,
        crop_read_row(original, padded) >= 0,
{
    let dx = original.x_origin - padded.x_origin;
    if dx > 0 {
        vstd::arithmetic::div_mod::lemma_div_pos_is_pos(dx, padded.pixel_width as int);
    }
    let dy = padded.y_origin - original.y_origin;
    if dy > 0 {
        vstd::arithmetic::div_mod::lemma_div_pos_is_pos(dy, padded.abs_pixel_height());
    }
}

/// Idempotent cropping: a cropping plan is a function of the original's and
/// the padded raster's metadata alone, so cropping the same padded tile
/// against the same original twice yields identical output.
pub proof fn lemma_crop_deterministic(
    original: RasterMeta,
    padded: RasterMeta,
    first: CropPlan,
    second: CropPlan,
)
    requires
        crop_plan_matches(original, padded, first),
        crop_plan_matches(original, padded, second),
    ensures
        first == second,
{
}

} // verus!
