use vstd::prelude::*;

verus! {

/// Why a set of georeferencing tags was rejected.
#[derive(Clone, Copy, Debug, PartialEq, Eq, Structural)]
pub enum FormatError {
    /// The pixel scale does not hold exactly three values.
    PixelScaleLength,
    /// The tie points hold no value at all.
    TiePointsEmpty,
    /// The number of tie point values is not a multiple of six.
    TiePointsNotDivisible,
    /// The transformation matrix does not hold exactly sixteen values.
    TransformationLength,
    /// A pixel scale came together with a transformation matrix.
    PixelScaleWithTransformation,
    /// Tie points came together with a transformation matrix.
    TiePointsWithTransformation,
    /// Neither a transformation matrix nor tie points are present.
    TiePointsMissing,
    /// A single tie point came without a pixel scale.
    PixelScaleMissing,
    /// Several tie points were given, and meshes are not available.
    TiePointsUnsupported,
    /// The linear part of the transformation matrix has no inverse.
    TransformationNotInvertible,
}

impl FormatError {
    /// The text of the message, which names the offending tag.
    pub open spec fn spec_message(self) -> Seq<char> {
        match self {
            FormatError::PixelScaleLength => "Number values in ModelPixelScaleTag must be equal to 3"@,
            FormatError::TiePointsEmpty => "Number of values in ModelTiePointTag must be greater than 0"@,
            FormatError::TiePointsNotDivisible => "Number of values in ModelTiePointTag must be divisible by 6"@,
            FormatError::TransformationLength => "Number of values in ModelTransformationTag must be equal to 16"@,
            FormatError::PixelScaleWithTransformation => "ModelPixelScaleTag must not be specified when ModelTransformationTag is present"@,
            FormatError::TiePointsWithTransformation => "ModelTiePointTag must not be specified when ModelTransformationTag is present"@,
            FormatError::TiePointsMissing => "ModelTiePointTag must be present when ModelTransformationTag is missing"@,
            FormatError::PixelScaleMissing => "ModelPixelScaleTag must be specified when ModelTiePointTag contains 6 values"@,
            FormatError::TiePointsUnsupported => "Transformation by tie points is not supported"@,
            FormatError::TransformationNotInvertible => "Provided transformation matrix is not invertible"@,
        }
    }

    /// A human-readable message for this error.
    pub fn message(&self) -> (text: String)
        ensures
            text@ == self.spec_message(),
    {
        match self {
            FormatError::PixelScaleLength => "Number values in ModelPixelScaleTag must be equal to 3".to_owned(),
            FormatError::TiePointsEmpty => "Number of values in ModelTiePointTag must be greater than 0".to_owned(),
            FormatError::TiePointsNotDivisible => "Number of values in ModelTiePointTag must be divisible by 6".to_owned(),
            FormatError::TransformationLength => "Number of values in ModelTransformationTag must be equal to 16".to_owned(),
            FormatError::PixelScaleWithTransformation => "ModelPixelScaleTag must not be specified when ModelTransformationTag is present".to_owned(),
            FormatError::TiePointsWithTransformation => "ModelTiePointTag must not be specified when ModelTransformationTag is present".to_owned(),
            FormatError::TiePointsMissing => "ModelTiePointTag must be present when ModelTransformationTag is missing".to_owned(),
            FormatError::PixelScaleMissing => "ModelPixelScaleTag must be specified when ModelTiePointTag contains 6 values".to_owned(),
            FormatError::TiePointsUnsupported => "Transformation by tie points is not supported".to_owned(),
            FormatError::TransformationNotInvertible => "Provided transformation matrix is not invertible".to_owned(),
        }
    }
}

} // verus!
