use vrt_buffer::batch::{is_raster_extension, BatchReport};
use vrt_buffer::geo::Geotransform;
use vrt_buffer::plan::{crop_plan_with_reference, RasterMeta, TileError};

fn north_up(x_origin: i64, y_origin: i64, pixel: i64) -> Geotransform {
    Geotransform {
        x_origin,
        pixel_width: pixel,
        x_rotation: 0,
        y_origin,
        y_rotation: 0,
        pixel_height: -pixel,
    }
}

fn meta(width: usize, height: usize, gt: Geotransform) -> RasterMeta {
    RasterMeta {
        width,
        height,
        geotransform: gt,
        projection: String::from("EPSG:32633"),
    }
}

/// Only the two case-sensitive raster suffixes are taken; everything else is
/// ignored.
#[test]
fn raster_extensions_are_exact_and_case_sensitive() {
    assert!(is_raster_extension("tif"));
    assert!(is_raster_extension("tiff"));
    assert!(!is_raster_extension("TIF"));
    assert!(!is_raster_extension("Tiff"));
    assert!(!is_raster_extension("png"));
    assert!(!is_raster_extension("tifff"));
    assert!(!is_raster_extension("ti"));
    assert!(!is_raster_extension(""));
}

/// A fresh report holds no tiles; each recorded outcome moves one counter.
#[test]
fn batch_report_counts_outcomes() {
    let mut report = BatchReport::new();
    assert_eq!(report.processed, 0);
    assert_eq!(report.skipped, 0);
    report.record_success();
    report.record_success();
    report.record_skip();
    assert_eq!(report.processed, 2);
    assert_eq!(report.skipped, 1);
}

/// Cropping a batch of three padded tiles when the reference directory lacks
/// an original for one of them: the other two are processed, exactly one is
/// skipped, and the skipped tile failed for the missing counterpart.
#[test]
fn missing_counterpart_skips_only_that_tile() {
    let original_a = meta(100, 100, north_up(1000, 2000, 1));
    let original_c = meta(100, 100, north_up(1200, 1800, 1));
    let padded_a = meta(120, 120, north_up(990, 2010, 1));
    let padded_b = meta(120, 120, north_up(1090, 1910, 1));
    let padded_c = meta(120, 120, north_up(1190, 1810, 1));

    // The reference lookup for each padded tile, in directory order; tile b
    // has no same-named original.
    let batch: Vec<(Option<&RasterMeta>, &RasterMeta)> = vec![
        (Some(&original_a), &padded_a),
        (None, &padded_b),
        (Some(&original_c), &padded_c),
    ];

    let mut report = BatchReport::new();
    let mut failures: Vec<TileError> = Vec::new();
    for (original, padded) in batch {
        match crop_plan_with_reference(original, padded) {
            Ok(plan) => {
                assert_eq!(plan.out_width, 100);
                report.record_success();
            }
            Err(e) => {
                failures.push(e);
                report.record_skip();
            }
        }
    }
    assert_eq!(report.processed, 2);
    assert_eq!(report.skipped, 1);
    assert_eq!(failures, vec![TileError::MissingCounterpart]);
}
