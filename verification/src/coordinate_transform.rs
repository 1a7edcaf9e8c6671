use vstd::prelude::*;

use crate::error::FormatError;

pub mod affine_transform;
pub mod tie_point_and_pixel_scale;
pub mod tie_points;

verus! {

/// A position, or a direction, in raster space or in model space.
#[derive(Clone, Copy, Debug, PartialEq)]
pub struct Coord<T> {
    pub x: T,
    pub y: T,
}

/// The transform between raster space and model space that a set of tags
/// describes, with the values that the tags give for it.
///
/// To apply a transform takes arithmetic on coordinates, which is left to the
/// caller: the inverse of the affine coefficients and the bisectors of a mesh
/// are computed there.
#[derive(Debug, PartialEq)]
pub enum CoordinateTransform<T> {
    /// The coefficients `[a, b, c, d, e, f]` of `x' = a·x + b·y + c` and
    /// `y' = d·x + e·y + f`, from raster space to model space.
    AffineTransform { transform: [T; 6] },
    /// One pair of corresponding points and the size of a pixel along each axis.
    TiePointAndPixelScale { raster_point: Coord<T>, model_point: Coord<T>, pixel_scale: Coord<T> },
    /// Several pairs of corresponding points: point `i` of raster space
    /// corresponds to point `i` of model space.
    TiePoints { raster_points: Vec<Coord<T>>, model_points: Vec<Coord<T>> },
}

/// What a `CoordinateTransform` holds, as mathematical values.
pub enum CoordinateTransformView<T> {
    AffineTransform { transform: Seq<T> },
    TiePointAndPixelScale { raster_point: Coord<T>, model_point: Coord<T>, pixel_scale: Coord<T> },
    TiePoints { raster_points: Seq<Coord<T>>, model_points: Seq<Coord<T>> },
}

impl<T> View for CoordinateTransform<T> {
    type V = CoordinateTransformView<T>;

    open spec fn view(&self) -> CoordinateTransformView<T> {
        match *self {
            CoordinateTransform::AffineTransform { transform } => CoordinateTransformView::AffineTransform {
                transform: transform@,
            },
            CoordinateTransform::TiePointAndPixelScale {
                raster_point,
                model_point,
                pixel_scale,
            } => CoordinateTransformView::TiePointAndPixelScale { raster_point, model_point, pixel_scale },
            CoordinateTransform::TiePoints {
                raster_points,
                model_points,
            } => CoordinateTransformView::TiePoints {
                raster_points: raster_points@,
                model_points: model_points@,
            },
        }
    }
}

/// The values of a tag, if the tag is present.
pub open spec fn tag_values<T>(data: Option<Vec<T>>) -> Option<Seq<T>> {
    match data {
        Some(values) => Some(values@),
        None => None,
    }
}

/// The outcome of a construction, with the transform as mathematical values.
pub open spec fn outcome<T>(result: Result<CoordinateTransform<T>, FormatError>) -> Result<
    CoordinateTransformView<T>,
    FormatError,
> {
    match result {
        Ok(transform) => Ok(transform@),
        Err(error) => Err(error),
    }
}

/// The transform that the three tags select, or the first rule that they break.
///
/// The lengths are judged first, tag by tag. A transformation matrix then
/// excludes the two other tags. Without one, tie points are required: a single
/// tie point needs a pixel scale beside it, several tie points form a mesh.
pub open spec fn selected_transform<T>(
    pixel_scale: Option<Seq<T>>,
    tie_points: Option<Seq<T>>,
    transformation: Option<Seq<T>>,
    tie_points_supported: bool,
) -> Result<CoordinateTransformView<T>, FormatError> {
    if pixel_scale is Some && pixel_scale->0.len() != 3 {
        Err(FormatError::PixelScaleLength)
    } else if tie_points is Some && tie_points->0.len() == 0 {
        Err(FormatError::TiePointsEmpty)
    } else if tie_points is Some && tie_points->0.len() % 6 != 0 {
        Err(FormatError::TiePointsNotDivisible)
    } else if transformation is Some && transformation->0.len() != 16 {
        Err(FormatError::TransformationLength)
    } else if transformation is Some {
        if pixel_scale is Some {
            Err(FormatError::PixelScaleWithTransformation)
        } else if tie_points is Some {
            Err(FormatError::TiePointsWithTransformation)
        } else {
            Ok(affine_transform::affine_view(transformation->0))
        }
    } else if tie_points is None {
        Err(FormatError::TiePointsMissing)
    } else if tie_points->0.len() == 6 {
        if pixel_scale is None {
            Err(FormatError::PixelScaleMissing)
        } else {
            Ok(tie_point_and_pixel_scale::scale_offset_view(tie_points->0, pixel_scale->0))
        }
    } else if !tie_points_supported {
        Err(FormatError::TiePointsUnsupported)
    } else {
        Ok(tie_points::tie_points_view(tie_points->0))
    }
}

impl<T: Copy> CoordinateTransform<T> {
    /// Validates the values of the three georeferencing tags and builds the
    /// transform that they select. `tie_points_supported` says whether the
    /// caller can interpolate over a mesh of tie points.
    pub fn from_tag_data(
        pixel_scale_data: Option<Vec<T>>,
        model_tie_points_data: Option<Vec<T>>,
        model_transformation_data: Option<Vec<T>>,
        tie_points_supported: bool,
    ) -> (result: Result<CoordinateTransform<T>, FormatError>)
        ensures
            outcome(result) == selected_transform(
                tag_values(pixel_scale_data),
                tag_values(model_tie_points_data),
                tag_values(model_transformation_data),
                tie_points_supported,
            ),
    {
        if let Some(data) = &pixel_scale_data {
            if data.len() != 3 {
                return Err(FormatError::PixelScaleLength);
            }
        }
        if let Some(data) = &model_tie_points_data {
            if data.len() == 0 {
                return Err(FormatError::TiePointsEmpty);
            }
            if data.len() % 6 != 0 {
                return Err(FormatError::TiePointsNotDivisible);
            }
        }
        if let Some(data) = &model_transformation_data {
            if data.len() != 16 {
                return Err(FormatError::TransformationLength);
            }
        }
        match model_transformation_data {
            Some(transformation_matrix) => {
                if pixel_scale_data.is_some() {
                    return Err(FormatError::PixelScaleWithTransformation);
                }
                if model_tie_points_data.is_some() {
                    return Err(FormatError::TiePointsWithTransformation);
                }
                let m = &transformation_matrix;
                let matrix = [
                    m[0],
                    m[1],
                    m[2],
                    m[3],
                    m[4],
                    m[5],
                    m[6],
                    m[7],
                    m[8],
                    m[9],
                    m[10],
                    m[11],
                    m[12],
                    m[13],
                    m[14],
                    m[15],
                ];
                assert(matrix@ =~= transformation_matrix@);
                Ok(Self::from_transformation_matrix(matrix))
            },
            None => {
                let tie_points = match model_tie_points_data {
                    Some(tie_points) => tie_points,
                    None => {
                        return Err(FormatError::TiePointsMissing);
                    },
                };
                if tie_points.len() == 6 {
                    let pixel_scale = match pixel_scale_data {
                        Some(pixel_scale) => pixel_scale,
                        None => {
                            return Err(FormatError::PixelScaleMissing);
                        },
                    };
                    Ok(Self::from_tie_point_and_pixel_scale(tie_points.as_slice(), pixel_scale.as_slice()))
                } else if !tie_points_supported {
                    Err(FormatError::TiePointsUnsupported)
                } else {
                    Ok(Self::from_tie_points(tie_points.as_slice()))
                }
            },
        }
    }
}

/// A pixel scale that does not hold exactly three values is rejected,
/// whatever the two other tags hold.
pub proof fn lemma_rejects_pixel_scale_length<T>(
    pixel_scale: Seq<T>,
    tie_points: Option<Seq<T>>,
    transformation: Option<Seq<T>>,
    tie_points_supported: bool,
)
    requires
        pixel_scale.len() != 3,
    ensures
        selected_transform(Some(pixel_scale), tie_points, transformation, tie_points_supported) == Err::<
            CoordinateTransformView<T>,
            FormatError,
        >(FormatError::PixelScaleLength),
{
}

/// Tie points whose number of values is no positive multiple of six are
/// rejected, whatever the two other tags hold.
pub proof fn lemma_rejects_tie_points_length<T>(
    pixel_scale: Option<Seq<T>>,
    tie_points: Seq<T>,
    transformation: Option<Seq<T>>,
    tie_points_supported: bool,
)
    requires
        tie_points.len() == 0 || tie_points.len() % 6 != 0,
    ensures
        selected_transform(pixel_scale, Some(tie_points), transformation, tie_points_supported) is Err,
        pixel_scale is None ==> selected_transform(
            pixel_scale,
            Some(tie_points),
            transformation,
            tie_points_supported,
        ) == Err::<CoordinateTransformView<T>, FormatError>(
            if tie_points.len() == 0 {
                FormatError::TiePointsEmpty
            } else {
                FormatError::TiePointsNotDivisible
            },
        ),
{
}

/// A transformation matrix that does not hold exactly sixteen values is
/// rejected, whatever the two other tags hold.
pub proof fn lemma_rejects_transformation_length<T>(
    pixel_scale: Option<Seq<T>>,
    tie_points: Option<Seq<T>>,
    transformation: Seq<T>,
    tie_points_supported: bool,
)
    requires
        transformation.len() != 16,
    ensures
        selected_transform(pixel_scale, tie_points, Some(transformation), tie_points_supported) is Err,
        pixel_scale is None && tie_points is None ==> selected_transform(
            pixel_scale,
            tie_points,
            Some(transformation),
            tie_points_supported,
        ) == Err::<CoordinateTransformView<T>, FormatError>(FormatError::TransformationLength),
{
}

/// A transformation matrix is rejected together with a pixel scale or with
/// tie points.
pub proof fn lemma_rejects_transformation_with_other_tags<T>(
    pixel_scale: Option<Seq<T>>,
    tie_points: Option<Seq<T>>,
    transformation: Seq<T>,
    tie_points_supported: bool,
)
    requires
        pixel_scale is Some || tie_points is Some,
    ensures
        selected_transform(pixel_scale, tie_points, Some(transformation), tie_points_supported) is Err,
{
}

/// Tags that are accepted select exactly one kind of transform: a
/// transformation matrix an affine transform, a single tie point a scaling
/// with an offset, several tie points a mesh.
pub proof fn lemma_selects_one_strategy<T>(
    pixel_scale: Option<Seq<T>>,
    tie_points: Option<Seq<T>>,
    transformation: Option<Seq<T>>,
    tie_points_supported: bool,
)
    requires
        selected_transform(pixel_scale, tie_points, transformation, tie_points_supported) is Ok,
    ensures
        ({
            let selected = selected_transform(
                pixel_scale,
                tie_points,
                transformation,
                tie_points_supported,
            )->Ok_0;
            &&& selected is AffineTransform <==> transformation is Some
            &&& selected is TiePointAndPixelScale <==> transformation is None && tie_points is Some
                && tie_points->0.len() == 6
            &&& selected is TiePoints <==> transformation is None && tie_points is Some && tie_points->0.len()
                > 6
            &&& selected is TiePoints ==> tie_points_supported
        }),
{
}

} // verus!
