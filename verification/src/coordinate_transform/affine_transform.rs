use vstd::prelude::*;

use crate::coordinate_transform::{CoordinateTransform, CoordinateTransformView};

verus! {

/// The six coefficients of the planar map inside a 4×4 matrix in row-major
/// order: of its first two rows, the columns of x, of y and of the offset.
pub open spec fn affine_coefficients<T>(matrix: Seq<T>) -> Seq<T> {
    seq![matrix[0], matrix[1], matrix[3], matrix[4], matrix[5], matrix[7]]
}

/// The affine transform that a transformation matrix describes.
pub open spec fn affine_view<T>(matrix: Seq<T>) -> CoordinateTransformView<T> {
    CoordinateTransformView::AffineTransform { transform: affine_coefficients(matrix) }
}

impl<T: Copy> CoordinateTransform<T> {
    /// Takes the coefficients of the planar map out of a 4×4 transformation
    /// matrix. The row and the column of z and the homogeneous row are ignored.
    pub fn from_transformation_matrix(transformation_matrix: [T; 16]) -> (transform: Self)
        ensures
            transform@ == affine_view(transformation_matrix@),
    {
        let transform = [
            transformation_matrix[0],
            transformation_matrix[1],
            transformation_matrix[3],
            transformation_matrix[4],
            transformation_matrix[5],
            transformation_matrix[7],
        ];
        assert(transform@ =~= affine_coefficients(transformation_matrix@));
        CoordinateTransform::AffineTransform { transform }
    }
}

} // verus!
