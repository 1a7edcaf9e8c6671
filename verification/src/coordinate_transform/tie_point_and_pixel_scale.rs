use vstd::prelude::*;

use crate::coordinate_transform::{Coord, CoordinateTransform, CoordinateTransformView};

verus! {

/// The transform that one tie point `[raster x, y, z, model x, y, z]` and a
/// pixel scale `[x, y, z]` describe. The z components play no part.
pub open spec fn scale_offset_view<T>(tie_point: Seq<T>, pixel_scale: Seq<T>) -> CoordinateTransformView<T> {
    CoordinateTransformView::TiePointAndPixelScale {
        raster_point: Coord { x: tie_point[0], y: tie_point[1] },
        model_point: Coord { x: tie_point[3], y: tie_point[4] },
        pixel_scale: Coord { x: pixel_scale[0], y: pixel_scale[1] },
    }
}

impl<T: Copy> CoordinateTransform<T> {
    /// Anchors raster space to model space at one tie point, with the given
    /// size of a pixel along each axis.
    pub fn from_tie_point_and_pixel_scale(tie_points: &[T], pixel_scale: &[T]) -> (transform: Self)
        requires
            tie_points.len() >= 5,
            pixel_scale.len() >= 2,
        ensures
            transform@ == scale_offset_view(tie_points@, pixel_scale@),
    {
        CoordinateTransform::TiePointAndPixelScale {
            raster_point: Coord { x: tie_points[0], y: tie_points[1] },
            model_point: Coord { x: tie_points[3], y: tie_points[4] },
            pixel_scale: Coord { x: pixel_scale[0], y: pixel_scale[1] },
        }
    }
}

} // verus!
