use vrt_buffer::geo::{clamp_window, expand_origin, world_to_pixel_offset, Geotransform};
use vrt_buffer::plan::{crop_plan, pad_plan, RasterMeta, TileError};

fn north_up(x_origin: i64, y_origin: i64, pixel: i64) -> Geotransform {
    Geotransform {
        x_origin,
        pixel_width: pixel,
        x_rotation: 0,
        y_origin,
        y_rotation: 0,
        pixel_height: -pixel,
    }
}

fn meta(width: usize, height: usize, gt: Geotransform, projection: &str) -> RasterMeta {
    RasterMeta {
        width,
        height,
        geotransform: gt,
        projection: String::from(projection),
    }
}

/// A 100x100 tile at origin (1000, 2000), pixel size (1, -1), margin 10,
/// against a mosaic covering (0, 0)-(2000, 2000): a 120x120 output with
/// origin (990, 2010).
#[test]
fn scenario_a_pads_with_full_margin() {
    let tile = meta(100, 100, north_up(1000, 2000, 1), "EPSG:32633");
    let mosaic = meta(2000, 2000, north_up(0, 2000, 1), "EPSG:32633");
    let plan = pad_plan(&tile, &mosaic, 10).unwrap();
    assert_eq!(plan.out_width, 120);
    assert_eq!(plan.out_height, 120);
    assert_eq!(plan.out_geotransform.x_origin, 990);
    assert_eq!(plan.out_geotransform.y_origin, 2010);
    assert_eq!(plan.out_geotransform.pixel_width, 1);
    assert_eq!(plan.out_geotransform.pixel_height, -1);
    assert_eq!(plan.read_col, 990);
    // The tile touches the mosaic's top edge, so the top margin is clamped.
    assert_eq!(plan.read_row, 0);
    assert_eq!(plan.out_projection, "EPSG:32633");
}

/// The scenario-A output cropped against the original tile: a 100x100
/// output with origin (1000, 2000), read 10 pixels into the padded raster.
#[test]
fn scenario_b_crops_back_to_original() {
    let tile = meta(100, 100, north_up(1000, 2000, 1), "EPSG:32633");
    let mosaic = meta(2000, 2000, north_up(0, 2000, 1), "EPSG:32633");
    let padded_plan = pad_plan(&tile, &mosaic, 10).unwrap();
    let padded = meta(
        padded_plan.out_width,
        padded_plan.out_height,
        padded_plan.out_geotransform,
        &padded_plan.out_projection,
    );
    let plan = crop_plan(&tile, &padded).unwrap();
    assert_eq!(plan.read_col, 10);
    assert_eq!(plan.read_row, 10);
    assert_eq!(plan.out_width, 100);
    assert_eq!(plan.out_height, 100);
    assert_eq!(plan.out_geotransform, north_up(1000, 2000, 1));
    assert_eq!(plan.out_projection, "EPSG:32633");
}

/// A tile at the mosaic's top-left corner: the expanded origin would fall at
/// negative offsets, so both offsets clamp to zero, and against a 110x110
/// mosaic both sizes stay below size + 2 * margin.
#[test]
fn scenario_c_corner_tile_clamps_offsets_and_size() {
    let tile = meta(100, 100, north_up(0, 2000, 1), "EPSG:32633");
    let mosaic = meta(110, 110, north_up(0, 2000, 1), "EPSG:32633");
    let plan = pad_plan(&tile, &mosaic, 10).unwrap();
    assert_eq!(plan.read_col, 0);
    assert_eq!(plan.read_row, 0);
    assert!(plan.out_width < 120);
    assert!(plan.out_height < 120);
    assert_eq!(plan.out_width, 110);
    assert_eq!(plan.out_height, 110);
    assert_eq!(plan.out_geotransform.x_origin, -10);
    assert_eq!(plan.out_geotransform.y_origin, 2010);
}

/// An interior tile padded and cropped: the cropped read window lands on
/// exactly the mosaic pixels the tile itself covers.
#[test]
fn round_trip_reads_back_the_tile_window() {
    let tile = meta(50, 40, north_up(3000, 1500, 5), "EPSG:25832");
    let mosaic = meta(1000, 1000, north_up(0, 4000, 5), "EPSG:25832");
    let margin = 7;
    let padded_plan = pad_plan(&tile, &mosaic, margin).unwrap();
    assert_eq!(padded_plan.out_width, 50 + 2 * margin);
    assert_eq!(padded_plan.out_height, 40 + 2 * margin);
    let padded = meta(
        padded_plan.out_width,
        padded_plan.out_height,
        padded_plan.out_geotransform,
        &padded_plan.out_projection,
    );
    let crop = crop_plan(&tile, &padded).unwrap();
    assert_eq!(crop.read_col, margin);
    assert_eq!(crop.read_row, margin);
    // The tile's own position in the mosaic grid.
    let tile_col = (3000 - 0) / 5;
    let tile_row = (4000 - 1500) / 5;
    assert_eq!(padded_plan.read_col + crop.read_col, tile_col);
    assert_eq!(padded_plan.read_row + crop.read_row, tile_row);
    assert_eq!(crop.out_width, tile.width);
    assert_eq!(crop.out_height, tile.height);
    assert_eq!(crop.out_geotransform, tile.geotransform);
    assert_eq!(crop.out_projection, tile.projection);
}

/// Cropping the same padded tile against the same original twice yields
/// identical plans.
#[test]
fn cropping_twice_is_identical() {
    let tile = meta(100, 100, north_up(1000, 2000, 1), "EPSG:32633");
    let padded = meta(120, 120, north_up(990, 2010, 1), "EPSG:32633");
    let first = crop_plan(&tile, &padded).unwrap();
    let second = crop_plan(&tile, &padded).unwrap();
    assert_eq!(first.read_col, second.read_col);
    assert_eq!(first.read_row, second.read_row);
    assert_eq!(first.out_width, second.out_width);
    assert_eq!(first.out_height, second.out_height);
    assert_eq!(first.out_geotransform, second.out_geotransform);
    assert_eq!(first.out_projection, second.out_projection);
}

/// A tile near the mosaic's right and bottom edges: the window is clamped to
/// what remains of the mosaic and stays strictly below size + 2 * margin.
#[test]
fn margin_is_clamped_at_the_far_edges() {
    let tile = meta(100, 100, north_up(1900, 200, 1), "EPSG:32633");
    let mosaic = meta(2000, 2000, north_up(0, 2000, 1), "EPSG:32633");
    let plan = pad_plan(&tile, &mosaic, 10).unwrap();
    assert_eq!(plan.read_col, 1890);
    assert_eq!(plan.read_row, 1790);
    assert_eq!(plan.out_width, 2000 - 1890);
    assert_eq!(plan.out_height, 120);
    assert!(plan.out_width < 120);
}

/// A tile whose expanded origin lies above and left of the mosaic: offsets
/// clamp to zero instead of going negative.
#[test]
fn offsets_never_go_negative() {
    let tile = meta(10, 10, north_up(-500, 3000, 1), "EPSG:32633");
    let mosaic = meta(2000, 2000, north_up(0, 2000, 1), "EPSG:32633");
    let plan = pad_plan(&tile, &mosaic, 10).unwrap();
    assert_eq!(plan.read_col, 0);
    assert_eq!(plan.read_row, 0);
}

/// A tile wholly right of and below the mosaic: nothing remains to read, and
/// the tile fails with the out-of-bounds window error.
#[test]
fn window_outside_mosaic_is_an_error() {
    let tile = meta(10, 10, north_up(5000, -3000, 1), "EPSG:32633");
    let mosaic = meta(2000, 2000, north_up(0, 2000, 1), "EPSG:32633");
    let err = pad_plan(&tile, &mosaic, 10).unwrap_err();
    assert_eq!(err, TileError::WindowOutOfBounds);
}

/// A padded raster too small to hold the original at the computed offset:
/// the crop fails rather than read past the padded raster's bounds.
#[test]
fn crop_window_must_fit_inside_the_padded_raster() {
    let tile = meta(100, 100, north_up(1000, 2000, 1), "EPSG:32633");
    // Claims a 10-pixel shift but holds only 105 columns.
    let padded = meta(105, 105, north_up(990, 2010, 1), "EPSG:32633");
    let err = crop_plan(&tile, &padded).unwrap_err();
    assert_eq!(err, TileError::WindowOutOfBounds);
}

/// The expanded geotransform moves both origins outwards by margin pixels in
/// the raster's own grid and keeps every other coefficient.
#[test]
fn expand_origin_shifts_both_origins() {
    let gt = Geotransform {
        x_origin: 600,
        pixel_width: 3,
        x_rotation: 0,
        y_origin: 800,
        y_rotation: 0,
        pixel_height: -2,
    };
    let expanded = expand_origin(&gt, 10);
    assert_eq!(expanded.x_origin, 600 - 30);
    assert_eq!(expanded.y_origin, 800 + 20);
    assert_eq!(expanded.pixel_width, 3);
    assert_eq!(expanded.pixel_height, -2);
    assert_eq!(expanded.x_rotation, 0);
    assert_eq!(expanded.y_rotation, 0);
}

/// A zero margin leaves the geotransform unchanged.
#[test]
fn expand_origin_with_zero_margin_is_identity() {
    let gt = north_up(1234, 5678, 7);
    assert_eq!(expand_origin(&gt, 0), gt);
}

/// Offsets floor towards the pixel at or just before the target, and clamp
/// at zero on each axis independently.
#[test]
fn world_to_pixel_offset_floors_and_clamps() {
    let reference = north_up(0, 1000, 3);
    // x = 10 lies in column 3 (pixels cover [9, 12)); y = 994 in row 2.
    assert_eq!(world_to_pixel_offset(10, 994, &reference), (3, 2));
    // Exact pixel edges.
    assert_eq!(world_to_pixel_offset(12, 1000, &reference), (4, 0));
    // A target above and left of the reference clamps per axis.
    assert_eq!(world_to_pixel_offset(-5, 2000, &reference), (0, 0));
    assert_eq!(world_to_pixel_offset(-5, 994, &reference), (0, 2));
}

/// The window extent is the lesser of the mosaic's remainder and the asked
/// size, and disappears entirely when the offset is past the mosaic.
#[test]
fn clamp_window_takes_the_lesser_extent() {
    assert_eq!(clamp_window(990, 2000, 100, 10), Some(120));
    assert_eq!(clamp_window(1890, 2000, 100, 10), Some(110));
    assert_eq!(clamp_window(0, 110, 100, 10), Some(110));
    assert_eq!(clamp_window(2000, 2000, 100, 10), None);
    assert_eq!(clamp_window(2500, 2000, 100, 10), None);
}
