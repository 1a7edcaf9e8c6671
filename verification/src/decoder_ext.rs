use vstd::prelude::*;

use crate::coordinate_transform::{outcome, selected_transform, tag_values, CoordinateTransform, CoordinateTransformView};
use crate::error::FormatError;
use crate::geo_key_directory::{GeoKeyDirectory, GeoKeyError};

verus! {

/// The transform of an image with the given tags: none where the image
/// carries none of the three tags, in which case raster space is model space.
pub open spec fn image_transform<T>(
    pixel_scale: Option<Seq<T>>,
    tie_points: Option<Seq<T>>,
    transformation: Option<Seq<T>>,
    tie_points_supported: bool,
) -> Result<Option<CoordinateTransformView<T>>, FormatError> {
    if pixel_scale is None && tie_points is None && transformation is None {
        Ok(None)
    } else {
        match selected_transform(pixel_scale, tie_points, transformation, tie_points_supported) {
            Ok(transform) => Ok(Some(transform)),
            Err(error) => Err(error),
        }
    }
}

/// The outcome of reading an image's transform, as mathematical values.
pub open spec fn image_outcome<T>(result: Result<Option<CoordinateTransform<T>>, FormatError>) -> Result<
    Option<CoordinateTransformView<T>>,
    FormatError,
> {
    match result {
        Ok(Some(transform)) => Ok(Some(transform@)),
        Ok(None) => Ok(None),
        Err(error) => Err(error),
    }
}

/// An image has no transform exactly if it carries none of the three tags;
/// tags that select no transform are an error, never the lack of one.
pub proof fn lemma_no_transform_without_tags<T>(
    pixel_scale: Option<Seq<T>>,
    tie_points: Option<Seq<T>>,
    transformation: Option<Seq<T>>,
    tie_points_supported: bool,
)
    ensures
        image_transform(pixel_scale, tie_points, transformation, tie_points_supported) == Ok::<
            Option<CoordinateTransformView<T>>,
            FormatError,
        >(None) <==> pixel_scale is None && tie_points is None && transformation is None,
{
}

/// Builds the transform of an image from the values of its pixel scale, tie
/// point and transformation tags. An image without any of them has no
/// transform, which is no error.
pub fn coordinate_transform<T: Copy>(
    pixel_scale_data: Option<Vec<T>>,
    tie_points_data: Option<Vec<T>>,
    model_transformation_data: Option<Vec<T>>,
    tie_points_supported: bool,
) -> (result: Result<Option<CoordinateTransform<T>>, FormatError>)
    ensures
        image_outcome(result) == image_transform(
            tag_values(pixel_scale_data),
            tag_values(tie_points_data),
            tag_values(model_transformation_data),
            tie_points_supported,
        ),
{
    if pixel_scale_data.is_none() && tie_points_data.is_none() && model_transformation_data.is_none() {
        return Ok(None);
    }
    match CoordinateTransform::from_tag_data(
        pixel_scale_data,
        tie_points_data,
        model_transformation_data,
        tie_points_supported,
    ) {
        Ok(transform) => Ok(Some(transform)),
        Err(error) => Err(error),
    }
}

/// What an image has in the place of a tag that it does not carry: no value.
pub open spec fn values_or_none<T>(data: Option<Vec<T>>) -> Seq<T> {
    match data {
        Some(values) => values@,
        None => Seq::empty(),
    }
}

/// What an image has in the place of ASCII parameters that it does not carry: no character.
pub open spec fn text_or_none(data: Option<String>) -> Seq<char> {
    match data {
        Some(text) => text@,
        None => Seq::empty(),
    }
}

/// Reads the key directory of an image from the values of its key
/// directory, double parameter and ASCII parameter tags. An image without a
/// key directory has the directory of GeoTIFF 1.1 without any key, whatever
/// the other two tags hold.
pub fn geo_key_directory<D: Copy>(
    directory_data: Option<Vec<u16>>,
    double_params_data: Option<Vec<D>>,
    ascii_params_data: Option<String>,
) -> (result: Result<GeoKeyDirectory<D>, GeoKeyError>)
    ensures
        directory_data is None ==> result == Ok::<GeoKeyDirectory<D>, GeoKeyError>(
            GeoKeyDirectory::<D>::spec_default(),
        ),
        directory_data is Some ==> GeoKeyDirectory::reads_as(
            result,
            directory_data->0@,
            values_or_none(double_params_data),
            text_or_none(ascii_params_data),
        ),
{
    let directory_data = match directory_data {
        Some(directory_data) => directory_data,
        None => {
            return Ok(GeoKeyDirectory::default());
        },
    };
    let double_params_data = match double_params_data {
        Some(double_params_data) => double_params_data,
        None => Vec::new(),
    };
    let ascii_params_data = match ascii_params_data {
        Some(ascii_params_data) => ascii_params_data,
        None => String::new(),
    };
    GeoKeyDirectory::from_tag_data(directory_data, double_params_data, ascii_params_data)
}

} // verus!
