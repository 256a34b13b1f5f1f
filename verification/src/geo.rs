//! The geotransform/offset mapper: pure coordinate arithmetic shared by the
//! padding and cropping plans.
//!
//! World coordinates are modelled in exact integer grid units. A caller that
//! works with fractional coordinates scales them to integers before handing
//! them to the library.
use vstd::prelude::*;
use vstd::arithmetic::div_mod::{
    lemma_div_nonincreasing, lemma_div_pos_is_pos, lemma_fundamental_div_mod,
};
use vstd::arithmetic::mul::lemma_mul_nonnegative;

verus! {

/// The six affine coefficients mapping a pixel coordinate `(col, row)` to a
/// world coordinate: `x = x_origin + col * pixel_width + row * x_rotation`,
/// `y = y_origin + col * y_rotation + row * pixel_height`.
#[derive(Clone, Copy, PartialEq, Eq, Structural, Debug)]
pub struct Geotransform {
    pub x_origin: i64,
    pub pixel_width: i64,
    pub x_rotation: i64,
    pub y_origin: i64,
    pub y_rotation: i64,
    pub pixel_height: i64,
}

impl Geotransform {
    /// An axis-aligned, north-up grid: pixels step rightwards in x and
    /// downwards in y, so `pixel_width` is positive and `pixel_height`
    /// negative. The rotation terms play no part in offset arithmetic.
    pub open spec fn wf(self) -> bool {
        self.pixel_width > 0 && self.pixel_height < 0
    }

    /// The height of one pixel as a positive step.
    pub open spec fn abs_pixel_height(self) -> int {
        -(self.pixel_height as int)
    }
}

/// World x of the left edge of the raster once `margin` pixels are added on
/// every side: the origin moves left by `margin` pixel widths.
pub open spec fn expanded_x_origin(gt: Geotransform, margin: int) -> int {
    gt.x_origin - margin * gt.pixel_width
}

/// World y of the top edge of the raster once `margin` pixels are added on
/// every side: with a negative `pixel_height` the origin moves up.
pub open spec fn expanded_y_origin(gt: Geotransform, margin: int) -> int {
    gt.y_origin - margin * gt.pixel_height
}

/// The geotransform of a raster padded by `margin` pixels on every side:
/// both origins shifted outwards, every other coefficient kept.
pub open spec fn spec_expand_origin(gt: Geotransform, margin: int) -> Geotransform {
    Geotransform {
        x_origin: expanded_x_origin(gt, margin) as i64,
        y_origin: expanded_y_origin(gt, margin) as i64,
        ..gt
    }
}

/// Floor of `num / den` clamped below at zero, for `den > 0`. Division on
/// `int` is Euclidean, which for a positive divisor is the floor. A negative
/// quotient means the target lies above or left of the reference raster; it
/// is treated as zero, silently truncating the available margin.
pub open spec fn clamped_floor_div(num: int, den: int) -> int {
    if num / den < 0 {
        0
    } else {
        num / den
    }
}

/// Quotient of `delta / step` truncated towards zero and saturated at zero,
/// for `step > 0`: the cropping side's rounding rule. For a non-negative
/// quotient truncation and floor agree; a negative one saturates to zero.
pub open spec fn crop_offset(delta: int, step: int) -> int {
    if delta <= 0 {
        0
    } else {
        delta / step
    }
}

/// The column of the reference pixel whose world x is at or just before `x`,
/// clamped at the reference raster's left edge.
pub open spec fn pixel_col_of_x(x: int, reference: Geotransform) -> int {
    clamped_floor_div(x - reference.x_origin, reference.pixel_width as int)
}

/// The row of the reference pixel whose world y is at or just below `y`,
/// clamped at the reference raster's top edge.
pub open spec fn pixel_row_of_y(y: int, reference: Geotransform) -> int {
    clamped_floor_div(reference.y_origin - y, reference.abs_pixel_height())
}

/// The extent of a read window that starts `offset` pixels into a reference
/// raster of `reference_extent` pixels and asks for a tile's extent plus a
/// margin on both sides: the lesser of what remains of the reference and
/// what was asked for. Non-positive when the window is empty.
pub open spec fn spec_clamped_extent(
    offset: int,
    reference_extent: int,
    tile_extent: int,
    margin: int,
) -> int {
    if reference_extent - offset < tile_extent + 2 * margin {
        reference_extent - offset
    } else {
        tile_extent + 2 * margin
    }
}

/// For a positive divisor the quotient has the sign of the dividend.
pub proof fn lemma_div_sign(num: int, den: int)
    requires
        den > 0,
    ensures
        num >= 0 ==> num / den >= 0,
        num < 0 ==> num / den < 0,
{
    if num >= 0 {
        lemma_div_pos_is_pos(num, den);
    } else {
        if num / den >= 0 {
            lemma_fundamental_div_mod(num, den);
            lemma_mul_nonnegative(den, num / den);
        }
    }
}

/// Shifts a raster's origin outwards by `margin` pixels in its own grid,
/// producing the geotransform of the padded raster.
pub fn expand_origin(gt: &Geotransform, margin: usize) -> (r: Geotransform)
    requires
        gt.wf(),
        i64::MIN <= expanded_x_origin(*gt, margin as int) <= i64::MAX,
        i64::MIN <= expanded_y_origin(*gt, margin as int) <= i64::MAX,
    ensures
        r == spec_expand_origin(*gt, margin as int),
        r.wf(),
{
    proof {
        assert((margin as int) * (gt.pixel_width as int) < 0x7fffffffffffffffffffffffffffffff
            && (margin as int) * (gt.pixel_width as int) >= 0) by (nonlinear_arith)
            requires
                0 <= (margin as int) < 0x10000000000000000,
                0 < (gt.pixel_width as int) < 0x8000000000000000,
        ;
        assert((margin as int) * (gt.pixel_height as int) <= 0
            && (margin as int) * (gt.pixel_height as int)
                > -0x80000000000000000000000000000000) by (nonlinear_arith)
            requires
                0 <= (margin as int) < 0x10000000000000000,
                0 > (gt.pixel_height as int) >= -0x8000000000000000,
        ;
    }
    let shift_x: i128 = (margin as i128) * (gt.pixel_width as i128);
    let shift_y: i128 = (margin as i128) * (gt.pixel_height as i128);
    let new_x: i128 = gt.x_origin as i128 - shift_x;
    let new_y: i128 = gt.y_origin as i128 - shift_y;
    Geotransform {
        x_origin: new_x as i64,
        y_origin: new_y as i64,
        ..*gt
    }
}

/// Computes, in the reference raster's pixel grid, the coordinate of the
/// pixel whose world position is at or just before `(x, y)`, clamping each
/// axis at zero: a target outside the reference's top-left corner loses the
/// margin on that side rather than failing.
pub fn world_to_pixel_offset(x: i64, y: i64, reference: &Geotransform) -> (off: (u64, u64))
    requires
        reference.wf(),
    ensures
        off.0 == pixel_col_of_x(x as int, *reference),
        off.1 == pixel_row_of_y(y as int, *reference),
{
    let dx: i128 = x as i128 - reference.x_origin as i128;
    let pw: i128 = reference.pixel_width as i128;
    let col: u64 = if dx < 0 {
        proof {
            lemma_div_sign(dx as int, pw as int);
        }
        0
    } else {
        proof {
            lemma_div_pos_is_pos(dx as int, pw as int);
            lemma_div_nonincreasing(dx as int, pw as int);
        }
        ((dx as u128) / (pw as u128)) as u64
    };
    let dy: i128 = reference.y_origin as i128 - y as i128;
    let step: i128 = -(reference.pixel_height as i128);
    let row: u64 = if dy < 0 {
        proof {
            lemma_div_sign(dy as int, step as int);
        }
        0
    } else {
        proof {
            lemma_div_pos_is_pos(dy as int, step as int);
            lemma_div_nonincreasing(dy as int, step as int);
        }
        ((dy as u128) / (step as u128)) as u64
    };
    (col, row)
}

/// The size of the read window along one axis: what remains of the reference
/// raster past `offset`, capped at the tile's extent plus a margin on both
/// sides. `None` when nothing remains to read.
pub fn clamp_window(
    offset: u64,
    reference_extent: usize,
    tile_extent: usize,
    margin: usize,
) -> (r: Option<usize>)
    ensures
        r is Some <==> spec_clamped_extent(
            offset as int,
            reference_extent as int,
            tile_extent as int,
            margin as int,
        ) > 0,
        r matches Some(w) ==> w == spec_clamped_extent(
            offset as int,
            reference_extent as int,
            tile_extent as int,
            margin as int,
        ) && offset + w <= reference_extent,
{
    let remaining: i128 = reference_extent as i128 - offset as i128;
    let asked: i128 = tile_extent as i128 + 2 * (margin as i128);
    let extent: i128 = if remaining < asked {
        remaining
    } else {
        asked
    };
    if extent > 0 {
        Some(extent as usize)
    } else {
        None
    }
}

} // verus!
