use vstd::prelude::*;
use vstd::string::*;

use tiff::tags::Tag;

verus! {

/// Whether a raster cell stands for an area or for a point.
#[derive(Clone, Copy, Debug, PartialEq, Eq, Structural)]
pub enum RasterType {
    RasterPixelIsArea,
    RasterPixelIsPoint,
}

impl RasterType {
    /// The number that stands for this raster type in a key directory.
    pub open spec fn spec_code(self) -> u16 {
        match self {
            RasterType::RasterPixelIsArea => 1,
            RasterType::RasterPixelIsPoint => 2,
        }
    }

    /// The raster type that `code` stands for, if it stands for one.
    pub open spec fn spec_from_u16(code: u16) -> Option<RasterType> {
        if code == 1 {
            Some(RasterType::RasterPixelIsArea)
        } else if code == 2 {
            Some(RasterType::RasterPixelIsPoint)
        } else {
            None
        }
    }

    /// The number that stands for this raster type in a key directory.
    pub fn code(&self) -> (code: u16)
        ensures
            code == self.spec_code(),
    {
        match self {
            RasterType::RasterPixelIsArea => 1,
            RasterType::RasterPixelIsPoint => 2,
        }
    }

    /// The raster type that `code` stands for, if it stands for one.
    pub fn from_u16(code: u16) -> (decoded: Option<RasterType>)
        ensures
            decoded == RasterType::spec_from_u16(code),
    {
        match code {
            1 => Some(RasterType::RasterPixelIsArea),
            2 => Some(RasterType::RasterPixelIsPoint),
            _ => None,
        }
    }
}

/// The kind of value that a key has.
#[derive(Clone, Copy, Debug, PartialEq, Eq, Structural)]
pub enum KeyKind {
    /// One number, held by the entry itself.
    Short,
    /// One of the double parameters.
    Double,
    /// A part of the ASCII parameters.
    Ascii,
}

/// GeoTIFF key names and IDs.
///
/// Ref: https://docs.ogc.org/is/19-008r4/19-008r4.html#_summary_of_geokey_ids_and_names
#[derive(Clone, Copy, Debug, PartialEq, Eq, Structural)]
pub enum GeoKeyDirectoryTag {
    // GeoTIFF configuration keys
    ModelType,
    RasterType,
    Citation,
    // Geodetic CRS Parameter Keys
    GeographicType,
    GeogCitation,
    GeogGeodeticDatum,
    GeogPrimeMeridian,
    GeogLinearUnits,
    GeogLinearUnitSize,
    GeogAngularUnits,
    GeogAngularUnitSize,
    GeogEllipsoid,
    GeogSemiMajorAxis,
    GeogSemiMinorAxis,
    GeogInvFlattening,
    GeogAzimuthUnits,
    GeogPrimeMeridianLong,
    // Projected CRS Parameter Keys
    ProjectedType,
    ProjCitation,
    Projection,
    ProjCoordTrans,
    ProjLinearUnits,
    ProjLinearUnitSize,
    ProjStdParallel1,
    ProjStdParallel2,
    ProjNatOriginLong,
    ProjNatOriginLat,
    ProjFalseEasting,
    ProjFalseNorthing,
    ProjFalseOriginLong,
    ProjFalseOriginLat,
    ProjFalseOriginEasting,
    ProjFalseOriginNorthing,
    ProjCenterLong,
    ProjCenterLat,
    ProjCenterEasting,
    ProjCenterNorthing,
    ProjScaleAtNatOrigin,
    ProjScaleAtCenter,
    ProjAzimuthAngle,
    ProjStraightVertPoleLong,
    // Vertical CRS Parameter Keys (4096-5119)
    Vertical,
    VerticalCitation,
    VerticalDatum,
    VerticalUnits,
}

impl GeoKeyDirectoryTag {
    /// The ID of this key.
    pub open spec fn spec_code(self) -> u16 {
        match self {
            GeoKeyDirectoryTag::ModelType => 1024,
            GeoKeyDirectoryTag::RasterType => 1025,
            GeoKeyDirectoryTag::Citation => 1026,
            GeoKeyDirectoryTag::GeographicType => 2048,
            GeoKeyDirectoryTag::GeogCitation => 2049,
            GeoKeyDirectoryTag::GeogGeodeticDatum => 2050,
            GeoKeyDirectoryTag::GeogPrimeMeridian => 2051,
            GeoKeyDirectoryTag::GeogLinearUnits => 2052,
            GeoKeyDirectoryTag::GeogLinearUnitSize => 2053,
            GeoKeyDirectoryTag::GeogAngularUnits => 2054,
            GeoKeyDirectoryTag::GeogAngularUnitSize => 2055,
            GeoKeyDirectoryTag::GeogEllipsoid => 2056,
            GeoKeyDirectoryTag::GeogSemiMajorAxis => 2057,
            GeoKeyDirectoryTag::GeogSemiMinorAxis => 2058,
            GeoKeyDirectoryTag::GeogInvFlattening => 2059,
            GeoKeyDirectoryTag::GeogAzimuthUnits => 2060,
            GeoKeyDirectoryTag::GeogPrimeMeridianLong => 2061,
            GeoKeyDirectoryTag::ProjectedType => 3072,
            GeoKeyDirectoryTag::ProjCitation => 3073,
            GeoKeyDirectoryTag::Projection => 3074,
            GeoKeyDirectoryTag::ProjCoordTrans => 3075,
            GeoKeyDirectoryTag::ProjLinearUnits => 3076,
            GeoKeyDirectoryTag::ProjLinearUnitSize => 3077,
            GeoKeyDirectoryTag::ProjStdParallel1 => 3078,
            GeoKeyDirectoryTag::ProjStdParallel2 => 3079,
            GeoKeyDirectoryTag::ProjNatOriginLong => 3080,
            GeoKeyDirectoryTag::ProjNatOriginLat => 3081,
            GeoKeyDirectoryTag::ProjFalseEasting => 3082,
            GeoKeyDirectoryTag::ProjFalseNorthing => 3083,
            GeoKeyDirectoryTag::ProjFalseOriginLong => 3084,
            GeoKeyDirectoryTag::ProjFalseOriginLat => 3085,
            GeoKeyDirectoryTag::ProjFalseOriginEasting => 3086,
            GeoKeyDirectoryTag::ProjFalseOriginNorthing => 3087,
            GeoKeyDirectoryTag::ProjCenterLong => 3088,
            GeoKeyDirectoryTag::ProjCenterLat => 3089,
            GeoKeyDirectoryTag::ProjCenterEasting => 3090,
            GeoKeyDirectoryTag::ProjCenterNorthing => 3091,
            GeoKeyDirectoryTag::ProjScaleAtNatOrigin => 3092,
            GeoKeyDirectoryTag::ProjScaleAtCenter => 3093,
            GeoKeyDirectoryTag::ProjAzimuthAngle => 3094,
            GeoKeyDirectoryTag::ProjStraightVertPoleLong => 3095,
            GeoKeyDirectoryTag::Vertical => 4096,
            GeoKeyDirectoryTag::VerticalCitation => 4097,
            GeoKeyDirectoryTag::VerticalDatum => 4098,
            GeoKeyDirectoryTag::VerticalUnits => 4099,
        }
    }

    /// The key with the given ID, if there is one.
    pub open spec fn spec_from_u16(code: u16) -> Option<GeoKeyDirectoryTag> {
        if code == 1024 {
            Some(GeoKeyDirectoryTag::ModelType)
        } else if code == 1025 {
            Some(GeoKeyDirectoryTag::RasterType)
        } else if code == 1026 {
            Some(GeoKeyDirectoryTag::Citation)
        } else if code == 2048 {
            Some(GeoKeyDirectoryTag::GeographicType)
        } else if code == 2049 {
            Some(GeoKeyDirectoryTag::GeogCitation)
        } else if code == 2050 {
            Some(GeoKeyDirectoryTag::GeogGeodeticDatum)
        } else if code == 2051 {
            Some(GeoKeyDirectoryTag::GeogPrimeMeridian)
        } else if code == 2052 {
            Some(GeoKeyDirectoryTag::GeogLinearUnits)
        } else if code == 2053 {
            Some(GeoKeyDirectoryTag::GeogLinearUnitSize)
        } else if code == 2054 {
            Some(GeoKeyDirectoryTag::GeogAngularUnits)
        } else if code == 2055 {
            Some(GeoKeyDirectoryTag::GeogAngularUnitSize)
        } else if code == 2056 {
            Some(GeoKeyDirectoryTag::GeogEllipsoid)
        } else if code == 2057 {
            Some(GeoKeyDirectoryTag::GeogSemiMajorAxis)
        } else if code == 2058 {
            Some(GeoKeyDirectoryTag::GeogSemiMinorAxis)
        } else if code == 2059 {
            Some(GeoKeyDirectoryTag::GeogInvFlattening)
        } else if code == 2060 {
            Some(GeoKeyDirectoryTag::GeogAzimuthUnits)
        } else if code == 2061 {
            Some(GeoKeyDirectoryTag::GeogPrimeMeridianLong)
        } else if code == 3072 {
            Some(GeoKeyDirectoryTag::ProjectedType)
        } else if code == 3073 {
            Some(GeoKeyDirectoryTag::ProjCitation)
        } else if code == 3074 {
            Some(GeoKeyDirectoryTag::Projection)
        } else if code == 3075 {
            Some(GeoKeyDirectoryTag::ProjCoordTrans)
        } else if code == 3076 {
            Some(GeoKeyDirectoryTag::ProjLinearUnits)
        } else if code == 3077 {
            Some(GeoKeyDirectoryTag::ProjLinearUnitSize)
        } else if code == 3078 {
            Some(GeoKeyDirectoryTag::ProjStdParallel1)
        } else if code == 3079 {
            Some(GeoKeyDirectoryTag::ProjStdParallel2)
        } else if code == 3080 {
            Some(GeoKeyDirectoryTag::ProjNatOriginLong)
        } else if code == 3081 {
            Some(GeoKeyDirectoryTag::ProjNatOriginLat)
        } else if code == 3082 {
            Some(GeoKeyDirectoryTag::ProjFalseEasting)
        } else if code == 3083 {
            Some(GeoKeyDirectoryTag::ProjFalseNorthing)
        } else if code == 3084 {
            Some(GeoKeyDirectoryTag::ProjFalseOriginLong)
        } else if code == 3085 {
            Some(GeoKeyDirectoryTag::ProjFalseOriginLat)
        } else if code == 3086 {
            Some(GeoKeyDirectoryTag::ProjFalseOriginEasting)
        } else if code == 3087 {
            Some(GeoKeyDirectoryTag::ProjFalseOriginNorthing)
        } else if code == 3088 {
            Some(GeoKeyDirectoryTag::ProjCenterLong)
        } else if code == 3089 {
            Some(GeoKeyDirectoryTag::ProjCenterLat)
        } else if code == 3090 {
            Some(GeoKeyDirectoryTag::ProjCenterEasting)
        } else if code == 3091 {
            Some(GeoKeyDirectoryTag::ProjCenterNorthing)
        } else if code == 3092 {
            Some(GeoKeyDirectoryTag::ProjScaleAtNatOrigin)
        } else if code == 3093 {
            Some(GeoKeyDirectoryTag::ProjScaleAtCenter)
        } else if code == 3094 {
            Some(GeoKeyDirectoryTag::ProjAzimuthAngle)
        } else if code == 3095 {
            Some(GeoKeyDirectoryTag::ProjStraightVertPoleLong)
        } else if code == 4096 {
            Some(GeoKeyDirectoryTag::Vertical)
        } else if code == 4097 {
            Some(GeoKeyDirectoryTag::VerticalCitation)
        } else if code == 4098 {
            Some(GeoKeyDirectoryTag::VerticalDatum)
        } else if code == 4099 {
            Some(GeoKeyDirectoryTag::VerticalUnits)
        } else {
            None
        }
    }

    /// The kind of value that this key has.
    pub open spec fn kind(self) -> KeyKind {
        match self {
            GeoKeyDirectoryTag::ModelType
            | GeoKeyDirectoryTag::RasterType
            | GeoKeyDirectoryTag::GeographicType
            | GeoKeyDirectoryTag::GeogGeodeticDatum
            | GeoKeyDirectoryTag::GeogPrimeMeridian
            | GeoKeyDirectoryTag::GeogLinearUnits
            | GeoKeyDirectoryTag::GeogAngularUnits
            | GeoKeyDirectoryTag::GeogEllipsoid
            | GeoKeyDirectoryTag::GeogAzimuthUnits
            | GeoKeyDirectoryTag::ProjectedType
            | GeoKeyDirectoryTag::Projection
            | GeoKeyDirectoryTag::ProjCoordTrans
            | GeoKeyDirectoryTag::ProjLinearUnits
            | GeoKeyDirectoryTag::Vertical
            | GeoKeyDirectoryTag::VerticalDatum
            | GeoKeyDirectoryTag::VerticalUnits => KeyKind::Short,
            GeoKeyDirectoryTag::GeogLinearUnitSize
            | GeoKeyDirectoryTag::GeogAngularUnitSize
            | GeoKeyDirectoryTag::GeogSemiMajorAxis
            | GeoKeyDirectoryTag::GeogSemiMinorAxis
            | GeoKeyDirectoryTag::GeogInvFlattening
            | GeoKeyDirectoryTag::GeogPrimeMeridianLong
            | GeoKeyDirectoryTag::ProjLinearUnitSize
            | GeoKeyDirectoryTag::ProjStdParallel1
            | GeoKeyDirectoryTag::ProjStdParallel2
            | GeoKeyDirectoryTag::ProjNatOriginLong
            | GeoKeyDirectoryTag::ProjNatOriginLat
            | GeoKeyDirectoryTag::ProjFalseEasting
            | GeoKeyDirectoryTag::ProjFalseNorthing
            | GeoKeyDirectoryTag::ProjFalseOriginLong
            | GeoKeyDirectoryTag::ProjFalseOriginLat
            | GeoKeyDirectoryTag::ProjFalseOriginEasting
            | GeoKeyDirectoryTag::ProjFalseOriginNorthing
            | GeoKeyDirectoryTag::ProjCenterLong
            | GeoKeyDirectoryTag::ProjCenterLat
            | GeoKeyDirectoryTag::ProjCenterEasting
            | GeoKeyDirectoryTag::ProjCenterNorthing
            | GeoKeyDirectoryTag::ProjScaleAtNatOrigin
            | GeoKeyDirectoryTag::ProjScaleAtCenter
            | GeoKeyDirectoryTag::ProjAzimuthAngle
            | GeoKeyDirectoryTag::ProjStraightVertPoleLong => KeyKind::Double,
            GeoKeyDirectoryTag::Citation
            | GeoKeyDirectoryTag::GeogCitation
            | GeoKeyDirectoryTag::ProjCitation
            | GeoKeyDirectoryTag::VerticalCitation => KeyKind::Ascii,
        }
    }

    /// The kind of value that this key has.
    pub fn value_kind(&self) -> (kind: KeyKind)
        ensures
            kind == self.kind(),
    {
        match self {
            GeoKeyDirectoryTag::ModelType
            | GeoKeyDirectoryTag::RasterType
            | GeoKeyDirectoryTag::GeographicType
            | GeoKeyDirectoryTag::GeogGeodeticDatum
            | GeoKeyDirectoryTag::GeogPrimeMeridian
            | GeoKeyDirectoryTag::GeogLinearUnits
            | GeoKeyDirectoryTag::GeogAngularUnits
            | GeoKeyDirectoryTag::GeogEllipsoid
            | GeoKeyDirectoryTag::GeogAzimuthUnits
            | GeoKeyDirectoryTag::ProjectedType
            | GeoKeyDirectoryTag::Projection
            | GeoKeyDirectoryTag::ProjCoordTrans
            | GeoKeyDirectoryTag::ProjLinearUnits
            | GeoKeyDirectoryTag::Vertical
            | GeoKeyDirectoryTag::VerticalDatum
            | GeoKeyDirectoryTag::VerticalUnits => KeyKind::Short,
            GeoKeyDirectoryTag::GeogLinearUnitSize
            | GeoKeyDirectoryTag::GeogAngularUnitSize
            | GeoKeyDirectoryTag::GeogSemiMajorAxis
            | GeoKeyDirectoryTag::GeogSemiMinorAxis
            | GeoKeyDirectoryTag::GeogInvFlattening
            | GeoKeyDirectoryTag::GeogPrimeMeridianLong
            | GeoKeyDirectoryTag::ProjLinearUnitSize
            | GeoKeyDirectoryTag::ProjStdParallel1
            | GeoKeyDirectoryTag::ProjStdParallel2
            | GeoKeyDirectoryTag::ProjNatOriginLong
            | GeoKeyDirectoryTag::ProjNatOriginLat
            | GeoKeyDirectoryTag::ProjFalseEasting
            | GeoKeyDirectoryTag::ProjFalseNorthing
            | GeoKeyDirectoryTag::ProjFalseOriginLong
            | GeoKeyDirectoryTag::ProjFalseOriginLat
            | GeoKeyDirectoryTag::ProjFalseOriginEasting
            | GeoKeyDirectoryTag::ProjFalseOriginNorthing
            | GeoKeyDirectoryTag::ProjCenterLong
            | GeoKeyDirectoryTag::ProjCenterLat
            | GeoKeyDirectoryTag::ProjCenterEasting
            | GeoKeyDirectoryTag::ProjCenterNorthing
            | GeoKeyDirectoryTag::ProjScaleAtNatOrigin
            | GeoKeyDirectoryTag::ProjScaleAtCenter
            | GeoKeyDirectoryTag::ProjAzimuthAngle
            | GeoKeyDirectoryTag::ProjStraightVertPoleLong => KeyKind::Double,
            GeoKeyDirectoryTag::Citation
            | GeoKeyDirectoryTag::GeogCitation
            | GeoKeyDirectoryTag::ProjCitation
            | GeoKeyDirectoryTag::VerticalCitation => KeyKind::Ascii,
        }
    }

    /// The ID of this key.
    pub fn code(&self) -> (code: u16)
        ensures
            code == self.spec_code(),
    {
        match self {
            GeoKeyDirectoryTag::ModelType => 1024,
            GeoKeyDirectoryTag::RasterType => 1025,
            GeoKeyDirectoryTag::Citation => 1026,
            GeoKeyDirectoryTag::GeographicType => 2048,
            GeoKeyDirectoryTag::GeogCitation => 2049,
            GeoKeyDirectoryTag::GeogGeodeticDatum => 2050,
            GeoKeyDirectoryTag::GeogPrimeMeridian => 2051,
            GeoKeyDirectoryTag::GeogLinearUnits => 2052,
            GeoKeyDirectoryTag::GeogLinearUnitSize => 2053,
            GeoKeyDirectoryTag::GeogAngularUnits => 2054,
            GeoKeyDirectoryTag::GeogAngularUnitSize => 2055,
            GeoKeyDirectoryTag::GeogEllipsoid => 2056,
            GeoKeyDirectoryTag::GeogSemiMajorAxis => 2057,
            GeoKeyDirectoryTag::GeogSemiMinorAxis => 2058,
            GeoKeyDirectoryTag::GeogInvFlattening => 2059,
            GeoKeyDirectoryTag::GeogAzimuthUnits => 2060,
            GeoKeyDirectoryTag::GeogPrimeMeridianLong => 2061,
            GeoKeyDirectoryTag::ProjectedType => 3072,
            GeoKeyDirectoryTag::ProjCitation => 3073,
            GeoKeyDirectoryTag::Projection => 3074,
            GeoKeyDirectoryTag::ProjCoordTrans => 3075,
            GeoKeyDirectoryTag::ProjLinearUnits => 3076,
            GeoKeyDirectoryTag::ProjLinearUnitSize => 3077,
            GeoKeyDirectoryTag::ProjStdParallel1 => 3078,
            GeoKeyDirectoryTag::ProjStdParallel2 => 3079,
            GeoKeyDirectoryTag::ProjNatOriginLong => 3080,
            GeoKeyDirectoryTag::ProjNatOriginLat => 3081,
            GeoKeyDirectoryTag::ProjFalseEasting => 3082,
            GeoKeyDirectoryTag::ProjFalseNorthing => 3083,
            GeoKeyDirectoryTag::ProjFalseOriginLong => 3084,
            GeoKeyDirectoryTag::ProjFalseOriginLat => 3085,
            GeoKeyDirectoryTag::ProjFalseOriginEasting => 3086,
            GeoKeyDirectoryTag::ProjFalseOriginNorthing => 3087,
            GeoKeyDirectoryTag::ProjCenterLong => 3088,
            GeoKeyDirectoryTag::ProjCenterLat => 3089,
            GeoKeyDirectoryTag::ProjCenterEasting => 3090,
            GeoKeyDirectoryTag::ProjCenterNorthing => 3091,
            GeoKeyDirectoryTag::ProjScaleAtNatOrigin => 3092,
            GeoKeyDirectoryTag::ProjScaleAtCenter => 3093,
            GeoKeyDirectoryTag::ProjAzimuthAngle => 3094,
            GeoKeyDirectoryTag::ProjStraightVertPoleLong => 3095,
            GeoKeyDirectoryTag::Vertical => 4096,
            GeoKeyDirectoryTag::VerticalCitation => 4097,
            GeoKeyDirectoryTag::VerticalDatum => 4098,
            GeoKeyDirectoryTag::VerticalUnits => 4099,
        }
    }

    /// The key with the given ID, if there is one.
    pub fn from_u16(code: u16) -> (decoded: Option<GeoKeyDirectoryTag>)
        ensures
            decoded == GeoKeyDirectoryTag::spec_from_u16(code),
    {
        match code {
            1024 => Some(GeoKeyDirectoryTag::ModelType),
            1025 => Some(GeoKeyDirectoryTag::RasterType),
            1026 => Some(GeoKeyDirectoryTag::Citation),
            2048 => Some(GeoKeyDirectoryTag::GeographicType),
            2049 => Some(GeoKeyDirectoryTag::GeogCitation),
            2050 => Some(GeoKeyDirectoryTag::GeogGeodeticDatum),
            2051 => Some(GeoKeyDirectoryTag::GeogPrimeMeridian),
            2052 => Some(GeoKeyDirectoryTag::GeogLinearUnits),
            2053 => Some(GeoKeyDirectoryTag::GeogLinearUnitSize),
            2054 => Some(GeoKeyDirectoryTag::GeogAngularUnits),
            2055 => Some(GeoKeyDirectoryTag::GeogAngularUnitSize),
            2056 => Some(GeoKeyDirectoryTag::GeogEllipsoid),
            2057 => Some(GeoKeyDirectoryTag::GeogSemiMajorAxis),
            2058 => Some(GeoKeyDirectoryTag::GeogSemiMinorAxis),
            2059 => Some(GeoKeyDirectoryTag::GeogInvFlattening),
            2060 => Some(GeoKeyDirectoryTag::GeogAzimuthUnits),
            2061 => Some(GeoKeyDirectoryTag::GeogPrimeMeridianLong),
            3072 => Some(GeoKeyDirectoryTag::ProjectedType),
            3073 => Some(GeoKeyDirectoryTag::ProjCitation),
            3074 => Some(GeoKeyDirectoryTag::Projection),
            3075 => Some(GeoKeyDirectoryTag::ProjCoordTrans),
            3076 => Some(GeoKeyDirectoryTag::ProjLinearUnits),
            3077 => Some(GeoKeyDirectoryTag::ProjLinearUnitSize),
            3078 => Some(GeoKeyDirectoryTag::ProjStdParallel1),
            3079 => Some(GeoKeyDirectoryTag::ProjStdParallel2),
            3080 => Some(GeoKeyDirectoryTag::ProjNatOriginLong),
            3081 => Some(GeoKeyDirectoryTag::ProjNatOriginLat),
            3082 => Some(GeoKeyDirectoryTag::ProjFalseEasting),
            3083 => Some(GeoKeyDirectoryTag::ProjFalseNorthing),
            3084 => Some(GeoKeyDirectoryTag::ProjFalseOriginLong),
            3085 => Some(GeoKeyDirectoryTag::ProjFalseOriginLat),
            3086 => Some(GeoKeyDirectoryTag::ProjFalseOriginEasting),
            3087 => Some(GeoKeyDirectoryTag::ProjFalseOriginNorthing),
            3088 => Some(GeoKeyDirectoryTag::ProjCenterLong),
            3089 => Some(GeoKeyDirectoryTag::ProjCenterLat),
            3090 => Some(GeoKeyDirectoryTag::ProjCenterEasting),
            3091 => Some(GeoKeyDirectoryTag::ProjCenterNorthing),
            3092 => Some(GeoKeyDirectoryTag::ProjScaleAtNatOrigin),
            3093 => Some(GeoKeyDirectoryTag::ProjScaleAtCenter),
            3094 => Some(GeoKeyDirectoryTag::ProjAzimuthAngle),
            3095 => Some(GeoKeyDirectoryTag::ProjStraightVertPoleLong),
            4096 => Some(GeoKeyDirectoryTag::Vertical),
            4097 => Some(GeoKeyDirectoryTag::VerticalCitation),
            4098 => Some(GeoKeyDirectoryTag::VerticalDatum),
            4099 => Some(GeoKeyDirectoryTag::VerticalUnits),
            _ => None,
        }
    }
}

/// Why the tags of a key directory were rejected.
#[derive(Clone, Copy, Debug, PartialEq, Eq, Structural)]
pub enum GeoKeyError {
    /// The directory holds fewer than the four numbers of its header.
    DirectoryTooShort,
    /// The directory does not hold four numbers for each key that its header counts.
    DirectoryLength,
    /// An entry has an ID that is no key's.
    UnknownKey { key_id: u16 },
    /// The raster type is neither area nor point.
    UnknownRasterType { raster_type: u16 },
    /// The entry of a key with a number as its value says that it is stored in a tag.
    NotShort { key: GeoKeyDirectoryTag },
    /// The entry of a key with a double as its value does not refer to the double parameters.
    NotDouble { key: GeoKeyDirectoryTag },
    /// The entry of a key with a text as its value does not refer to the ASCII parameters.
    NotAscii { key: GeoKeyDirectoryTag },
    /// An entry for a single value counts another number of values than one.
    UnexpectedCount { count: u16 },
    /// An entry refers behind the last of the `len` double parameters.
    OffsetOutOfBounds { len: usize, offset: u16 },
    /// A text starts behind the last of the `len` characters of the ASCII parameters.
    StartOffsetOutOfBounds { len: usize, offset: u16 },
    /// A text is empty, or its last character lies behind the last of the
    /// `len` characters of the ASCII parameters.
    EndOffsetOutOfBounds { len: usize, offset: u16 },
    /// A text is asked for, and the ASCII parameters hold a character that is not ASCII.
    AsciiParamsNotAscii,
}

/// The GeoKeyDirectoryTag Requirements Class specifies the requirements for
/// implementing the reserved GeoKeyDirectoryTag TIFF tag.
///
/// Ref: https://docs.ogc.org/is/19-008r4/19-008r4.html#_requirements_class_geokeydirectorytag
#[derive(Debug, PartialEq)]
pub struct GeoKeyDirectory<D> {
    pub key_directory_version: u16,
    pub key_revision: u16,
    pub minor_revision: u16,
    pub model_type: Option<u16>,
    pub raster_type: Option<RasterType>,
    pub citation: Option<String>,
    pub geographic_type: Option<u16>,
    pub geog_citation: Option<String>,
    pub geog_geodetic_datum: Option<u16>,
    pub geog_prime_meridian: Option<u16>,
    pub geog_linear_units: Option<u16>,
    pub geog_linear_unit_size: Option<D>,
    pub geog_angular_units: Option<u16>,
    pub geog_angular_unit_size: Option<D>,
    pub geog_ellipsoid: Option<u16>,
    pub geog_semi_major_axis: Option<D>,
    pub geog_semi_minor_axis: Option<D>,
    pub geog_inv_flattening: Option<D>,
    pub geog_azimuth_units: Option<u16>,
    pub geog_prime_meridian_long: Option<D>,
    pub projected_type: Option<u16>,
    pub proj_citation: Option<String>,
    pub projection: Option<u16>,
    pub proj_coord_trans: Option<u16>,
    pub proj_linear_units: Option<u16>,
    pub proj_linear_unit_size: Option<D>,
    pub proj_std_parallel1: Option<D>,
    pub proj_std_parallel2: Option<D>,
    pub proj_nat_origin_long: Option<D>,
    pub proj_nat_origin_lat: Option<D>,
    pub proj_false_easting: Option<D>,
    pub proj_false_northing: Option<D>,
    pub proj_false_origin_long: Option<D>,
    pub proj_false_origin_lat: Option<D>,
    pub proj_false_origin_easting: Option<D>,
    pub proj_false_origin_northing: Option<D>,
    pub proj_center_long: Option<D>,
    pub proj_center_lat: Option<D>,
    pub proj_center_easting: Option<D>,
    pub proj_center_northing: Option<D>,
    pub proj_scale_at_nat_origin: Option<D>,
    pub proj_scale_at_center: Option<D>,
    pub proj_azimuth_angle: Option<D>,
    pub proj_straight_vert_pole_long: Option<D>,
    pub vertical: Option<u16>,
    pub vertical_citation: Option<String>,
    pub vertical_datum: Option<u16>,
    pub vertical_units: Option<u16>,
}

impl<D> GeoKeyDirectory<D> {
    /// A directory of GeoTIFF 1.1 without any key.
    pub open spec fn spec_default() -> GeoKeyDirectory<D> {
        GeoKeyDirectory {
            key_directory_version: 1,
            key_revision: 1,
            minor_revision: 1,
            model_type: None,
            raster_type: None,
            citation: None,
            geographic_type: None,
            geog_citation: None,
            geog_geodetic_datum: None,
            geog_prime_meridian: None,
            geog_linear_units: None,
            geog_linear_unit_size: None,
            geog_angular_units: None,
            geog_angular_unit_size: None,
            geog_ellipsoid: None,
            geog_semi_major_axis: None,
            geog_semi_minor_axis: None,
            geog_inv_flattening: None,
            geog_azimuth_units: None,
            geog_prime_meridian_long: None,
            projected_type: None,
            proj_citation: None,
            projection: None,
            proj_coord_trans: None,
            proj_linear_units: None,
            proj_linear_unit_size: None,
            proj_std_parallel1: None,
            proj_std_parallel2: None,
            proj_nat_origin_long: None,
            proj_nat_origin_lat: None,
            proj_false_easting: None,
            proj_false_northing: None,
            proj_false_origin_long: None,
            proj_false_origin_lat: None,
            proj_false_origin_easting: None,
            proj_false_origin_northing: None,
            proj_center_long: None,
            proj_center_lat: None,
            proj_center_easting: None,
            proj_center_northing: None,
            proj_scale_at_nat_origin: None,
            proj_scale_at_center: None,
            proj_azimuth_angle: None,
            proj_straight_vert_pole_long: None,
            vertical: None,
            vertical_citation: None,
            vertical_datum: None,
            vertical_units: None,
        }
    }

    /// The value of a key that has a number as its value, if the directory has the key.
    pub open spec fn short_value(self, key: GeoKeyDirectoryTag) -> Option<u16> {
        match key {
            GeoKeyDirectoryTag::ModelType => self.model_type,
            GeoKeyDirectoryTag::RasterType => match self.raster_type {
                Some(raster_type) => Some(raster_type.spec_code()),
                None => None,
            },
            GeoKeyDirectoryTag::GeographicType => self.geographic_type,
            GeoKeyDirectoryTag::GeogGeodeticDatum => self.geog_geodetic_datum,
            GeoKeyDirectoryTag::GeogPrimeMeridian => self.geog_prime_meridian,
            GeoKeyDirectoryTag::GeogLinearUnits => self.geog_linear_units,
            GeoKeyDirectoryTag::GeogAngularUnits => self.geog_angular_units,
            GeoKeyDirectoryTag::GeogEllipsoid => self.geog_ellipsoid,
            GeoKeyDirectoryTag::GeogAzimuthUnits => self.geog_azimuth_units,
            GeoKeyDirectoryTag::ProjectedType => self.projected_type,
            GeoKeyDirectoryTag::Projection => self.projection,
            GeoKeyDirectoryTag::ProjCoordTrans => self.proj_coord_trans,
            GeoKeyDirectoryTag::ProjLinearUnits => self.proj_linear_units,
            GeoKeyDirectoryTag::Vertical => self.vertical,
            GeoKeyDirectoryTag::VerticalDatum => self.vertical_datum,
            GeoKeyDirectoryTag::VerticalUnits => self.vertical_units,
            _ => None,
        }
    }

    /// The value of a key that has a double as its value, if the directory has the key.
    pub open spec fn double_value(self, key: GeoKeyDirectoryTag) -> Option<D> {
        match key {
            GeoKeyDirectoryTag::GeogLinearUnitSize => self.geog_linear_unit_size,
            GeoKeyDirectoryTag::GeogAngularUnitSize => self.geog_angular_unit_size,
            GeoKeyDirectoryTag::GeogSemiMajorAxis => self.geog_semi_major_axis,
            GeoKeyDirectoryTag::GeogSemiMinorAxis => self.geog_semi_minor_axis,
            GeoKeyDirectoryTag::GeogInvFlattening => self.geog_inv_flattening,
            GeoKeyDirectoryTag::GeogPrimeMeridianLong => self.geog_prime_meridian_long,
            GeoKeyDirectoryTag::ProjLinearUnitSize => self.proj_linear_unit_size,
            GeoKeyDirectoryTag::ProjStdParallel1 => self.proj_std_parallel1,
            GeoKeyDirectoryTag::ProjStdParallel2 => self.proj_std_parallel2,
            GeoKeyDirectoryTag::ProjNatOriginLong => self.proj_nat_origin_long,
            GeoKeyDirectoryTag::ProjNatOriginLat => self.proj_nat_origin_lat,
            GeoKeyDirectoryTag::ProjFalseEasting => self.proj_false_easting,
            GeoKeyDirectoryTag::ProjFalseNorthing => self.proj_false_northing,
            GeoKeyDirectoryTag::ProjFalseOriginLong => self.proj_false_origin_long,
            GeoKeyDirectoryTag::ProjFalseOriginLat => self.proj_false_origin_lat,
            GeoKeyDirectoryTag::ProjFalseOriginEasting => self.proj_false_origin_easting,
            GeoKeyDirectoryTag::ProjFalseOriginNorthing => self.proj_false_origin_northing,
            GeoKeyDirectoryTag::ProjCenterLong => self.proj_center_long,
            GeoKeyDirectoryTag::ProjCenterLat => self.proj_center_lat,
            GeoKeyDirectoryTag::ProjCenterEasting => self.proj_center_easting,
            GeoKeyDirectoryTag::ProjCenterNorthing => self.proj_center_northing,
            GeoKeyDirectoryTag::ProjScaleAtNatOrigin => self.proj_scale_at_nat_origin,
            GeoKeyDirectoryTag::ProjScaleAtCenter => self.proj_scale_at_center,
            GeoKeyDirectoryTag::ProjAzimuthAngle => self.proj_azimuth_angle,
            GeoKeyDirectoryTag::ProjStraightVertPoleLong => self.proj_straight_vert_pole_long,
            _ => None,
        }
    }

    /// The value of a key that has a text as its value, if the directory has the key.
    pub open spec fn ascii_value(self, key: GeoKeyDirectoryTag) -> Option<Seq<char>> {
        match key {
            GeoKeyDirectoryTag::Citation => text_of(self.citation),
            GeoKeyDirectoryTag::GeogCitation => text_of(self.geog_citation),
            GeoKeyDirectoryTag::ProjCitation => text_of(self.proj_citation),
            GeoKeyDirectoryTag::VerticalCitation => text_of(self.vertical_citation),
            _ => None,
        }
    }
}

/// The characters of a text, if there is one.
pub open spec fn text_of(text: Option<String>) -> Option<Seq<char>> {
    match text {
        Some(text) => Some(text@),
        None => None,
    }
}

impl<D> Default for GeoKeyDirectory<D> {
    fn default() -> (directory: Self)
        ensures
            directory == GeoKeyDirectory::<D>::spec_default(),
    {
        // According to https://docs.ogc.org/is/19-008r4/19-008r4.html#_requirements_class_geokeydirectorytag,
        // - the value of KeyDirectoryVersion SHALL be 1
        // - the value of KeyRevision SHALL be 1
        // - a MinorRevision of 1 indicates GeoTIFF 1.1, which is recommended for production/writing a GeoTIFF file
        GeoKeyDirectory {
            key_directory_version: 1,
            key_revision: 1,
            minor_revision: 1,
            model_type: None,
            raster_type: None,
            citation: None,
            geographic_type: None,
            geog_citation: None,
            geog_geodetic_datum: None,
            geog_prime_meridian: None,
            geog_linear_units: None,
            geog_linear_unit_size: None,
            geog_angular_units: None,
            geog_angular_unit_size: None,
            geog_ellipsoid: None,
            geog_semi_major_axis: None,
            geog_semi_minor_axis: None,
            geog_inv_flattening: None,
            geog_azimuth_units: None,
            geog_prime_meridian_long: None,
            projected_type: None,
            proj_citation: None,
            projection: None,
            proj_coord_trans: None,
            proj_linear_units: None,
            proj_linear_unit_size: None,
            proj_std_parallel1: None,
            proj_std_parallel2: None,
            proj_nat_origin_long: None,
            proj_nat_origin_lat: None,
            proj_false_easting: None,
            proj_false_northing: None,
            proj_false_origin_long: None,
            proj_false_origin_lat: None,
            proj_false_origin_easting: None,
            proj_false_origin_northing: None,
            proj_center_long: None,
            proj_center_lat: None,
            proj_center_easting: None,
            proj_center_northing: None,
            proj_scale_at_nat_origin: None,
            proj_scale_at_center: None,
            proj_azimuth_angle: None,
            proj_straight_vert_pole_long: None,
            vertical: None,
            vertical_citation: None,
            vertical_datum: None,
            vertical_units: None,
        }
    }
}

/// The ID of the TIFF tag that holds the double parameters.
pub const GEO_DOUBLE_PARAMS_TAG: u16 = 34736;

/// The ID of the TIFF tag that holds the ASCII parameters.
pub const GEO_ASCII_PARAMS_TAG: u16 = 34737;

/// The ID of the tag that `Tag::from_u16` of tiff gives for an ID: the ID
/// itself where tiff knows a tag by it, and none where it does not.
pub uninterp spec fn tiff_tag_id(code: u16) -> Option<u16>;

/// Whether `location` is the ID of a tag: of the double parameters, of the
/// ASCII parameters, or of another tag that tiff knows. No tag has the ID 0.
pub open spec fn names_a_tag(location: u16) -> bool {
    location == GEO_DOUBLE_PARAMS_TAG || location == GEO_ASCII_PARAMS_TAG || (location != 0 && tiff_tag_id(
        location,
    ) is Some)
}

/// `Tag::from_u16` of tiff: the tag with the given ID, by its ID, and none
/// for an ID by which tiff knows no tag. It knows the tags of the double
/// parameters and of the ASCII parameters, and none with the ID 0.
#[verifier::external_body]
fn tiff_tag(code: u16) -> (tag: Option<u16>)
    ensures
        tag == tiff_tag_id(code),
        tag is Some ==> tag == Some(code),
        code == GEO_DOUBLE_PARAMS_TAG || code == GEO_ASCII_PARAMS_TAG ==> tag is Some,
        code == 0 ==> tag is None,
{
    match Tag::from_u16(code) {
        Some(_) => Some(code),
        None => None,
    }
}

/// The value of an entry of a key with a number as its value. The entry
/// holds the number itself, and so must not name a tag as its location.
pub open spec fn short_of(key: GeoKeyDirectoryTag, in_tag: bool, count: u16, value: u16) -> Result<
    u16,
    GeoKeyError,
> {
    if in_tag {
        Err(GeoKeyError::NotShort { key })
    } else if count != 1 {
        Err(GeoKeyError::UnexpectedCount { count })
    } else {
        Ok(value)
    }
}

/// The value of an entry of a key with a double as its value: the double
/// parameter at the entry's offset.
pub open spec fn double_of<D>(
    doubles: Seq<D>,
    key: GeoKeyDirectoryTag,
    in_double_params: bool,
    count: u16,
    offset: u16,
) -> Result<D, GeoKeyError> {
    if !in_double_params {
        Err(GeoKeyError::NotDouble { key })
    } else if count != 1 {
        Err(GeoKeyError::UnexpectedCount { count })
    } else if offset >= doubles.len() {
        Err(GeoKeyError::OffsetOutOfBounds { len: doubles.len() as usize, offset })
    } else {
        Ok(doubles[offset as int])
    }
}

/// The value of an entry of a key with a text as its value: the `count`
/// characters of the ASCII parameters from the entry's offset on, without
/// the last of them, which ends the text.
pub open spec fn string_of(
    ascii: Seq<char>,
    key: GeoKeyDirectoryTag,
    in_ascii_params: bool,
    count: u16,
    offset: u16,
) -> Result<Seq<char>, GeoKeyError> {
    if !in_ascii_params {
        Err(GeoKeyError::NotAscii { key })
    } else if !vstd::utf8::is_ascii_chars(ascii) {
        Err(GeoKeyError::AsciiParamsNotAscii)
    } else if offset >= ascii.len() {
        Err(GeoKeyError::StartOffsetOutOfBounds { len: ascii.len() as usize, offset })
    } else if count == 0 || offset + count - 1 >= ascii.len() {
        Err(GeoKeyError::EndOffsetOutOfBounds { len: ascii.len() as usize, offset })
    } else {
        Ok(ascii.subrange(offset as int, offset + count - 1))
    }
}

/// The ID of the key of the `i`-th entry of a directory.
pub open spec fn entry_key(data: Seq<u16>, i: int) -> u16 {
    data[4 + 4 * i]
}

/// The ID of the TIFF tag that holds the value of the `i`-th entry, or a
/// number that is no tag's where the entry holds the value itself.
pub open spec fn entry_location(data: Seq<u16>, i: int) -> u16 {
    data[4 + 4 * i + 1]
}

/// The number of values of the `i`-th entry.
pub open spec fn entry_count(data: Seq<u16>, i: int) -> u16 {
    data[4 + 4 * i + 2]
}

/// The value of the `i`-th entry, or the offset of its value in its tag.
pub open spec fn entry_value(data: Seq<u16>, i: int) -> u16 {
    data[4 + 4 * i + 3]
}

/// The number that the `i`-th entry gives its key, if the key has a number
/// as its value.
pub open spec fn entry_short(data: Seq<u16>, key: GeoKeyDirectoryTag, i: int) -> Result<u16, GeoKeyError> {
    match short_of(key, names_a_tag(entry_location(data, i)), entry_count(data, i), entry_value(data, i)) {
        Ok(value) => if key == GeoKeyDirectoryTag::RasterType && RasterType::spec_from_u16(value) is None {
            Err(GeoKeyError::UnknownRasterType { raster_type: value })
        } else {
            Ok(value)
        },
        Err(error) => Err(error),
    }
}

/// The double that the `i`-th entry gives its key.
pub open spec fn entry_double<D>(data: Seq<u16>, doubles: Seq<D>, key: GeoKeyDirectoryTag, i: int) -> Result<
    D,
    GeoKeyError,
> {
    double_of(
        doubles,
        key,
        entry_location(data, i) == GEO_DOUBLE_PARAMS_TAG,
        entry_count(data, i),
        entry_value(data, i),
    )
}

/// The text that the `i`-th entry gives its key.
pub open spec fn entry_ascii(data: Seq<u16>, ascii: Seq<char>, key: GeoKeyDirectoryTag, i: int) -> Result<
    Seq<char>,
    GeoKeyError,
> {
    string_of(
        ascii,
        key,
        entry_location(data, i) == GEO_ASCII_PARAMS_TAG,
        entry_count(data, i),
        entry_value(data, i),
    )
}

/// What is wrong with the `i`-th entry of a directory, if anything is.
pub open spec fn entry_error<D>(data: Seq<u16>, doubles: Seq<D>, ascii: Seq<char>, i: int) -> Option<
    GeoKeyError,
> {
    match GeoKeyDirectoryTag::spec_from_u16(entry_key(data, i)) {
        None => Some(GeoKeyError::UnknownKey { key_id: entry_key(data, i) }),
        Some(key) => match key.kind() {
            KeyKind::Short => match entry_short(data, key, i) {
                Ok(_) => None,
                Err(error) => Some(error),
            },
            KeyKind::Double => match entry_double(data, doubles, key, i) {
                Ok(_) => None,
                Err(error) => Some(error),
            },
            KeyKind::Ascii => match entry_ascii(data, ascii, key, i) {
                Ok(_) => None,
                Err(error) => Some(error),
            },
        },
    }
}

/// What is wrong with the first of the first `n` entries that is not in
/// order, if one of them is not.
pub open spec fn first_entry_error<D>(data: Seq<u16>, doubles: Seq<D>, ascii: Seq<char>, n: int) -> Option<
    GeoKeyError,
>
    decreases n,
{
    if n <= 0 {
        None
    } else {
        match first_entry_error(data, doubles, ascii, n - 1) {
            Some(error) => Some(error),
            None => entry_error(data, doubles, ascii, n - 1),
        }
    }
}

/// Why a directory is rejected, if it is. Its header holds the versions and
/// the number of keys; four numbers follow for each key.
pub open spec fn directory_error<D>(data: Seq<u16>, doubles: Seq<D>, ascii: Seq<char>) -> Option<GeoKeyError> {
    if data.len() < 4 {
        Some(GeoKeyError::DirectoryTooShort)
    } else if data.len() - 4 != 4 * data[3] {
        Some(GeoKeyError::DirectoryLength)
    } else {
        first_entry_error(data, doubles, ascii, data[3] as int)
    }
}

/// The last of the first `n` entries that is an entry of `key`, if there is one.
pub open spec fn last_entry(data: Seq<u16>, key: GeoKeyDirectoryTag, n: int) -> Option<int>
    decreases n,
{
    if n <= 0 {
        None
    } else if entry_key(data, n - 1) == key.spec_code() {
        Some(n - 1)
    } else {
        last_entry(data, key, n - 1)
    }
}

/// The number that the first `n` entries give to `key`: that of its last entry.
pub open spec fn last_short(data: Seq<u16>, key: GeoKeyDirectoryTag, n: int) -> Option<u16> {
    match last_entry(data, key, n) {
        Some(i) => if key.kind() == KeyKind::Short {
            Some(entry_value(data, i))
        } else {
            None
        },
        None => None,
    }
}

/// The double that the first `n` entries give to `key`: that of its last entry.
pub open spec fn last_double<D>(data: Seq<u16>, doubles: Seq<D>, key: GeoKeyDirectoryTag, n: int) -> Option<D> {
    match last_entry(data, key, n) {
        Some(i) => if key.kind() == KeyKind::Double {
            Some(doubles[entry_value(data, i) as int])
        } else {
            None
        },
        None => None,
    }
}

/// The text that the first `n` entries give to `key`: that of its last entry.
pub open spec fn last_ascii(data: Seq<u16>, ascii: Seq<char>, key: GeoKeyDirectoryTag, n: int) -> Option<
    Seq<char>,
> {
    match last_entry(data, key, n) {
        Some(i) => if key.kind() == KeyKind::Ascii {
            Some(
                ascii.subrange(
                    entry_value(data, i) as int,
                    entry_value(data, i) + entry_count(data, i) - 1,
                ),
            )
        } else {
            None
        },
        None => None,
    }
}

impl<D> GeoKeyDirectory<D> {
    /// Whether this directory is `other` but for the value of `key`.
    pub open spec fn same_but(self, other: GeoKeyDirectory<D>, key: GeoKeyDirectoryTag) -> bool {
        &&& self.key_directory_version == other.key_directory_version
        &&& self.key_revision == other.key_revision
        &&& self.minor_revision == other.minor_revision
        &&& forall|k: GeoKeyDirectoryTag| k != key ==> #[trigger] self.short_value(k) == other.short_value(k)
        &&& forall|k: GeoKeyDirectoryTag| k != key ==> #[trigger] self.double_value(k) == other.double_value(k)
        &&& forall|k: GeoKeyDirectoryTag| k != key ==> #[trigger] self.ascii_value(k) == other.ascii_value(k)
    }
}

impl<D> GeoKeyDirectory<D> {
    /// Whether `result` is what the three tags of a key directory read as:
    /// the error of the directory, if it has one, and else the directory
    /// with the versions of the header and, for each key, the value of the
    /// key's last entry.
    pub open spec fn reads_as(
        result: Result<GeoKeyDirectory<D>, GeoKeyError>,
        data: Seq<u16>,
        doubles: Seq<D>,
        ascii: Seq<char>,
    ) -> bool {
        match result {
            Ok(directory) => {
                &&& directory_error(data, doubles, ascii) is None
                &&& directory.key_directory_version == data[0]
                &&& directory.key_revision == data[1]
                &&& directory.minor_revision == data[2]
                &&& forall|key: GeoKeyDirectoryTag| #[trigger]
                    directory.short_value(key) == last_short(data, key, data[3] as int)
                &&& forall|key: GeoKeyDirectoryTag| #[trigger]
                    directory.double_value(key) == last_double(data, doubles, key, data[3] as int)
                &&& forall|key: GeoKeyDirectoryTag| #[trigger]
                    directory.ascii_value(key) == last_ascii(data, ascii, key, data[3] as int)
            },
            Err(error) => directory_error(data, doubles, ascii) == Some(error),
        }
    }
}

impl<D: Copy> GeoKeyDirectory<D> {
    /// Reads a key directory from the values of its three tags: the
    /// directory itself, the double parameters and the ASCII parameters.
    ///
    /// The entries are read in their order. The first that is not in order
    /// gives the error. Where a key has several entries, the last one counts.
    pub fn from_tag_data(
        directory_data: Vec<u16>,
        double_params_data: Vec<D>,
        ascii_params_data: String,
    ) -> (result: Result<Self, GeoKeyError>)
        ensures
            Self::reads_as(result, directory_data@, double_params_data@, ascii_params_data@),
    {
        let mut directory = Self::default();
        if directory_data.len() < 4 {
            return Err(GeoKeyError::DirectoryTooShort);
        }
        directory.key_directory_version = directory_data[0];
        directory.key_revision = directory_data[1];
        directory.minor_revision = directory_data[2];
        let number_of_keys: usize = directory_data[3] as usize;

        if directory_data.len() - 4 != 4 * number_of_keys {
            return Err(GeoKeyError::DirectoryLength);
        }
        let ghost data = directory_data@;
        let ghost doubles = double_params_data@;
        let ghost ascii = ascii_params_data@;
        let mut i: usize = 0;
        while i < number_of_keys
            invariant
                i <= number_of_keys,
                number_of_keys == directory_data[3],
                directory_data.len() == 4 + 4 * number_of_keys,
                data == directory_data@,
                doubles == double_params_data@,
                ascii == ascii_params_data@,
                first_entry_error(data, doubles, ascii, i as int) is None,
                directory.key_directory_version == directory_data[0],
                directory.key_revision == directory_data[1],
                directory.minor_revision == directory_data[2],
                forall|key: GeoKeyDirectoryTag| #[trigger]
                    directory.short_value(key) == last_short(data, key, i as int),
                forall|key: GeoKeyDirectoryTag| #[trigger]
                    directory.double_value(key) == last_double(data, doubles, key, i as int),
                forall|key: GeoKeyDirectoryTag| #[trigger]
                    directory.ascii_value(key) == last_ascii(data, ascii, key, i as int),
            decreases number_of_keys - i,
        {
            let ghost before = directory;
            let key_tag = match directory.read_entry(
                directory_data.as_slice(),
                double_params_data.as_slice(),
                ascii_params_data.as_str(),
                i,
            ) {
                Ok(key_tag) => key_tag,
                Err(error) => {
                    proof {
                        lemma_first_error_stays(data, doubles, ascii, i as int, number_of_keys as int);
                    }
                    return Err(error);
                },
            };
            proof {
                let next = i + 1;
                lemma_codes_differ(key_tag);
                assert forall|key: GeoKeyDirectoryTag| #[trigger]
                    directory.short_value(key) == last_short(data, key, next) by {
                    assert(before.short_value(key) == last_short(data, key, i as int));
                }
                assert forall|key: GeoKeyDirectoryTag| #[trigger]
                    directory.double_value(key) == last_double(data, doubles, key, next) by {
                    assert(before.double_value(key) == last_double(data, doubles, key, i as int));
                }
                assert forall|key: GeoKeyDirectoryTag| #[trigger]
                    directory.ascii_value(key) == last_ascii(data, ascii, key, next) by {
                    assert(before.ascii_value(key) == last_ascii(data, ascii, key, i as int));
                }
            }
            i += 1;
        }
        Ok(directory)
    }

    /// Reads the `i`-th entry of a directory and gives its key its value.
    fn read_entry(&mut self, directory_data: &[u16], double_params_data: &[D], ascii_params_data: &str, i: usize) -> (key:
        Result<GeoKeyDirectoryTag, GeoKeyError>)
        requires
            4 + 4 * i + 3 < directory_data.len(),
        ensures
            match key {
                Ok(key) => {
                    &&& entry_error(directory_data@, double_params_data@, ascii_params_data@, i as int) is None
                    &&& GeoKeyDirectoryTag::spec_from_u16(entry_key(directory_data@, i as int)) == Some(key)
                    &&& final(self).same_but(*old(self), key)
                    &&& final(self).short_value(key) == if key.kind() == KeyKind::Short {
                        Some(entry_value(directory_data@, i as int))
                    } else {
                        None
                    }
                    &&& final(self).double_value(key) == if key.kind() == KeyKind::Double {
                        Some(double_params_data@[entry_value(directory_data@, i as int) as int])
                    } else {
                        None
                    }
                    &&& final(self).ascii_value(key) == if key.kind() == KeyKind::Ascii {
                        Some(
                            ascii_params_data@.subrange(
                                entry_value(directory_data@, i as int) as int,
                                entry_value(directory_data@, i as int) + entry_count(directory_data@, i as int)
                                    - 1,
                            ),
                        )
                    } else {
                        None
                    }
                },
                Err(error) => {
                    &&& entry_error(directory_data@, double_params_data@, ascii_params_data@, i as int) == Some(
                        error,
                    )
                    &&& *final(self) == *old(self)
                },
            },
    {
        let base: usize = 4 + 4 * i;
        let key_id = directory_data[base];
        let tiff_tag_location = directory_data[base + 1];
        let count = directory_data[base + 2];
        let value_or_offset = directory_data[base + 3];
        let key_tag = match GeoKeyDirectoryTag::from_u16(key_id) {
            Some(key_tag) => key_tag,
            None => {
                return Err(GeoKeyError::UnknownKey { key_id });
            },
        };
        let location_tag = tiff_tag(tiff_tag_location);
        match key_tag.value_kind() {
            KeyKind::Short => {
                let value = match Self::get_short(key_tag, location_tag, count, value_or_offset) {
                    Ok(value) => value,
                    Err(error) => {
                        return Err(error);
                    },
                };
                match key_tag {
                    GeoKeyDirectoryTag::RasterType => match RasterType::from_u16(value) {
                        Some(raster_type) => self.set_raster_type(raster_type),
                        None => {
                            return Err(GeoKeyError::UnknownRasterType { raster_type: value });
                        },
                    },
                    _ => self.set_short(key_tag, value),
                }
            },
            KeyKind::Double => {
                match Self::get_double(double_params_data, key_tag, location_tag, count, value_or_offset) {
                    Ok(value) => self.set_double(key_tag, value),
                    Err(error) => {
                        return Err(error);
                    },
                }
            },
            KeyKind::Ascii => {
                match Self::get_string(ascii_params_data, key_tag, location_tag, count, value_or_offset) {
                    Ok(value) => self.set_string(key_tag, value),
                    Err(error) => {
                        return Err(error);
                    },
                }
            },
        }
        Ok(key_tag)
    }

    /// Gives a key that has a number as its value that value.
    fn set_short(&mut self, key: GeoKeyDirectoryTag, value: u16)
        requires
            key.kind() == KeyKind::Short,
            key != GeoKeyDirectoryTag::RasterType,
        ensures
            final(self).short_value(key) == Some(value),
            final(self).double_value(key) is None,
            final(self).ascii_value(key) is None,
            final(self).same_but(*old(self), key),
    {
        match key {
            GeoKeyDirectoryTag::ModelType => self.model_type = Some(value),
            GeoKeyDirectoryTag::GeographicType => self.geographic_type = Some(value),
            GeoKeyDirectoryTag::GeogGeodeticDatum => self.geog_geodetic_datum = Some(value),
            GeoKeyDirectoryTag::GeogPrimeMeridian => self.geog_prime_meridian = Some(value),
            GeoKeyDirectoryTag::GeogLinearUnits => self.geog_linear_units = Some(value),
            GeoKeyDirectoryTag::GeogAngularUnits => self.geog_angular_units = Some(value),
            GeoKeyDirectoryTag::GeogEllipsoid => self.geog_ellipsoid = Some(value),
            GeoKeyDirectoryTag::GeogAzimuthUnits => self.geog_azimuth_units = Some(value),
            GeoKeyDirectoryTag::ProjectedType => self.projected_type = Some(value),
            GeoKeyDirectoryTag::Projection => self.projection = Some(value),
            GeoKeyDirectoryTag::ProjCoordTrans => self.proj_coord_trans = Some(value),
            GeoKeyDirectoryTag::ProjLinearUnits => self.proj_linear_units = Some(value),
            GeoKeyDirectoryTag::Vertical => self.vertical = Some(value),
            GeoKeyDirectoryTag::VerticalDatum => self.vertical_datum = Some(value),
            GeoKeyDirectoryTag::VerticalUnits => self.vertical_units = Some(value),
            _ => {},
        }
    }

    /// Gives a key that has a double as its value that value.
    fn set_double(&mut self, key: GeoKeyDirectoryTag, value: D)
        requires
            key.kind() == KeyKind::Double,
        ensures
            final(self).double_value(key) == Some(value),
            final(self).short_value(key) is None,
            final(self).ascii_value(key) is None,
            final(self).same_but(*old(self), key),
    {
        match key {
            GeoKeyDirectoryTag::GeogLinearUnitSize => self.geog_linear_unit_size = Some(value),
            GeoKeyDirectoryTag::GeogAngularUnitSize => self.geog_angular_unit_size = Some(value),
            GeoKeyDirectoryTag::GeogSemiMajorAxis => self.geog_semi_major_axis = Some(value),
            GeoKeyDirectoryTag::GeogSemiMinorAxis => self.geog_semi_minor_axis = Some(value),
            GeoKeyDirectoryTag::GeogInvFlattening => self.geog_inv_flattening = Some(value),
            GeoKeyDirectoryTag::GeogPrimeMeridianLong => self.geog_prime_meridian_long = Some(value),
            GeoKeyDirectoryTag::ProjLinearUnitSize => self.proj_linear_unit_size = Some(value),
            GeoKeyDirectoryTag::ProjStdParallel1 => self.proj_std_parallel1 = Some(value),
            GeoKeyDirectoryTag::ProjStdParallel2 => self.proj_std_parallel2 = Some(value),
            GeoKeyDirectoryTag::ProjNatOriginLong => self.proj_nat_origin_long = Some(value),
            GeoKeyDirectoryTag::ProjNatOriginLat => self.proj_nat_origin_lat = Some(value),
            GeoKeyDirectoryTag::ProjFalseEasting => self.proj_false_easting = Some(value),
            GeoKeyDirectoryTag::ProjFalseNorthing => self.proj_false_northing = Some(value),
            GeoKeyDirectoryTag::ProjFalseOriginLong => self.proj_false_origin_long = Some(value),
            GeoKeyDirectoryTag::ProjFalseOriginLat => self.proj_false_origin_lat = Some(value),
            GeoKeyDirectoryTag::ProjFalseOriginEasting => self.proj_false_origin_easting = Some(value),
            GeoKeyDirectoryTag::ProjFalseOriginNorthing => self.proj_false_origin_northing = Some(value),
            GeoKeyDirectoryTag::ProjCenterLong => self.proj_center_long = Some(value),
            GeoKeyDirectoryTag::ProjCenterLat => self.proj_center_lat = Some(value),
            GeoKeyDirectoryTag::ProjCenterEasting => self.proj_center_easting = Some(value),
            GeoKeyDirectoryTag::ProjCenterNorthing => self.proj_center_northing = Some(value),
            GeoKeyDirectoryTag::ProjScaleAtNatOrigin => self.proj_scale_at_nat_origin = Some(value),
            GeoKeyDirectoryTag::ProjScaleAtCenter => self.proj_scale_at_center = Some(value),
            GeoKeyDirectoryTag::ProjAzimuthAngle => self.proj_azimuth_angle = Some(value),
            GeoKeyDirectoryTag::ProjStraightVertPoleLong => self.proj_straight_vert_pole_long = Some(value),
            _ => {},
        }
    }

    /// Gives a key that has a text as its value that value.
    fn set_string(&mut self, key: GeoKeyDirectoryTag, value: String)
        requires
            key.kind() == KeyKind::Ascii,
        ensures
            final(self).ascii_value(key) == Some(value@),
            final(self).short_value(key) is None,
            final(self).double_value(key) is None,
            final(self).same_but(*old(self), key),
    {
        match key {
            GeoKeyDirectoryTag::Citation => self.citation = Some(value),
            GeoKeyDirectoryTag::GeogCitation => self.geog_citation = Some(value),
            GeoKeyDirectoryTag::ProjCitation => self.proj_citation = Some(value),
            GeoKeyDirectoryTag::VerticalCitation => self.vertical_citation = Some(value),
            _ => {},
        }
    }

    /// Gives the directory its raster type.
    fn set_raster_type(&mut self, raster_type: RasterType)
        ensures
            final(self).short_value(GeoKeyDirectoryTag::RasterType) == Some(raster_type.spec_code()),
            final(self).same_but(*old(self), GeoKeyDirectoryTag::RasterType),
    {
        self.raster_type = Some(raster_type);
    }

    /// The value of a key that has a number as its value. `location_tag` is
    /// the ID of the tag that the entry names as the place of its value, if
    /// it names one; `offset` is what the entry holds in the place of a value.
    pub fn get_short(key_tag: GeoKeyDirectoryTag, location_tag: Option<u16>, count: u16, offset: u16) -> (value:
        Result<u16, GeoKeyError>)
        ensures
            value == short_of(key_tag, location_tag is Some, count, offset),
    {
        // Check that TIFFTagLocation == 0 so value is of SHORT type
        if location_tag.is_some() {
            return Err(GeoKeyError::NotShort { key: key_tag });
        }
        if count != 1 {
            return Err(GeoKeyError::UnexpectedCount { count });
        }
        Ok(offset)
    }

    /// The value of a key that has a double as its value: the one of the
    /// double parameters `data` that the entry refers to.
    pub fn get_double(
        data: &[D],
        key_tag: GeoKeyDirectoryTag,
        location_tag: Option<u16>,
        count: u16,
        offset: u16,
    ) -> (value: Result<D, GeoKeyError>)
        ensures
            value == double_of(data@, key_tag, location_tag == Some(GEO_DOUBLE_PARAMS_TAG), count, offset),
    {
        match location_tag {
            Some(GEO_DOUBLE_PARAMS_TAG) => {},
            _ => {
                return Err(GeoKeyError::NotDouble { key: key_tag });
            },
        }
        if count != 1 {
            return Err(GeoKeyError::UnexpectedCount { count });
        }
        if offset as usize >= data.len() {
            return Err(GeoKeyError::OffsetOutOfBounds { len: data.len(), offset });
        }
        Ok(data[offset as usize])
    }

    /// The value of a key that has a text as its value: the part of the
    /// ASCII parameters `data` that the entry refers to, without the
    /// character that ends it.
    pub fn get_string(
        data: &str,
        key_tag: GeoKeyDirectoryTag,
        location_tag: Option<u16>,
        count: u16,
        offset: u16,
    ) -> (value: Result<String, GeoKeyError>)
        ensures
            match value {
                Ok(text) => string_of(
                    data@,
                    key_tag,
                    location_tag == Some(GEO_ASCII_PARAMS_TAG),
                    count,
                    offset,
                ) == Ok::<Seq<char>, GeoKeyError>(text@),
                Err(error) => string_of(
                    data@,
                    key_tag,
                    location_tag == Some(GEO_ASCII_PARAMS_TAG),
                    count,
                    offset,
                ) == Err::<Seq<char>, GeoKeyError>(error),
            },
    {
        broadcast use is_ascii_spec_bytes;

        match location_tag {
            Some(GEO_ASCII_PARAMS_TAG) => {},
            _ => {
                return Err(GeoKeyError::NotAscii { key: key_tag });
            },
        }
        if !data.is_ascii() {
            return Err(GeoKeyError::AsciiParamsNotAscii);
        }
        let len: usize = data.as_bytes().len();
        assert(len == data@.len()) by {
            is_ascii_spec_bytes(data);
        }
        let start: usize = offset as usize;
        if start >= len {
            return Err(GeoKeyError::StartOffsetOutOfBounds { len, offset });
        }
        if count == 0 {
            return Err(GeoKeyError::EndOffsetOutOfBounds { len, offset });
        }
        let end: usize = offset as usize + count as usize - 1;
        if end >= len {
            return Err(GeoKeyError::EndOffsetOutOfBounds { len, offset });
        }
        Ok(data.substring_ascii(start, end).to_owned())
    }
}

/// An entry that is not in order, after entries that are, gives the error
/// of every longer run of entries.
proof fn lemma_first_error_stays<D>(data: Seq<u16>, doubles: Seq<D>, ascii: Seq<char>, i: int, n: int)
    requires
        0 <= i < n,
        first_entry_error(data, doubles, ascii, i) is None,
        entry_error(data, doubles, ascii, i) is Some,
    ensures
        first_entry_error(data, doubles, ascii, n) == entry_error(data, doubles, ascii, i),
    decreases n,
{
    if n > i + 1 {
        lemma_first_error_stays(data, doubles, ascii, i, n - 1);
    }
}

/// No two keys share an ID.
proof fn lemma_codes_differ(key: GeoKeyDirectoryTag)
    ensures
        GeoKeyDirectoryTag::spec_from_u16(key.spec_code()) == Some(key),
        forall|other: GeoKeyDirectoryTag| #[trigger] other.spec_code() == key.spec_code() ==> other == key,
{
    assert forall|other: GeoKeyDirectoryTag| #[trigger] other.spec_code() == key.spec_code() implies other
        == key by {
        assert(GeoKeyDirectoryTag::spec_from_u16(other.spec_code()) == Some(other));
    }
}

} // verus!
