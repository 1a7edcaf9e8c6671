use vstd::prelude::*;

verus! {

/// Whether `code` is the number of a tag that is known here.
pub open spec fn known_tiff_tag(code: u16) -> bool {
    exists|tag: TIFFTag| tag.spec_code() == code
}

// Base types of the TIFF format.
pub type BYTE = u8;

pub type SHORT = u16;

pub type LONG = u32;

pub type ASCII = String;

pub type RATIONAL = (u32, u32);

pub type SBYTE = i8;

pub type SSHORT = i16;

pub type SLONG = i32;

pub type SRATIONAL = (i32, i32);

/// The order of the bytes of a number in a file, as its first two bytes tell it.
#[derive(Clone, Copy, Debug, PartialEq, Eq, Hash, Structural)]
pub enum TIFFByteOrder {
    LittleEndian,
    BigEndian,
}

impl TIFFByteOrder {
    /// The number that stands for this value in a file.
    pub open spec fn spec_code(self) -> u16 {
        match self {
            TIFFByteOrder::LittleEndian => 0x4949,
            TIFFByteOrder::BigEndian => 0x4d4d,
        }
    }

    /// The value that `code` stands for, if it stands for one.
    pub open spec fn spec_from_u16(code: u16) -> Option<TIFFByteOrder> {
        if code == 0x4949 {
            Some(TIFFByteOrder::LittleEndian)
        } else if code == 0x4d4d {
            Some(TIFFByteOrder::BigEndian)
        } else {
            None
        }
    }

    /// The number that stands for this value in a file.
    pub fn code(&self) -> (code: u16)
        ensures
            code == self.spec_code(),
    {
        match self {
            TIFFByteOrder::LittleEndian => 0x4949,
            TIFFByteOrder::BigEndian => 0x4d4d,
        }
    }

    /// The value that `code` stands for, if it stands for one.
    pub fn from_u16(code: u16) -> (decoded: Option<TIFFByteOrder>)
        ensures
            match decoded {
                Some(value) => value.spec_code() == code,
                None => forall|value: TIFFByteOrder| #[trigger] value.spec_code() != code,
            },
            decoded == TIFFByteOrder::spec_from_u16(code),
    {
        match code {
            0x4949 => Some(TIFFByteOrder::LittleEndian),
            0x4d4d => Some(TIFFByteOrder::BigEndian),
            _ => None,
        }
    }
}
/// The type of the values of a tag.
#[derive(Clone, Copy, Debug, PartialEq, Eq, Hash, Structural)]
pub enum TagType {
    BYTE,
    ASCII,
    SHORT,
    LONG,
    RATIONAL,
    SBYTE,
    UNDEFINED,
    SSHORT,
    SLONG,
    SRATIONAL,
    FLOAT,
    DOUBLE,
    IFD,
    LONG8,
    SLONG8,
    IFD8,
}

impl TagType {
    /// The number that stands for this value in a file.
    pub open spec fn spec_code(self) -> u16 {
        match self {
            TagType::BYTE => 1,
            TagType::ASCII => 2,
            TagType::SHORT => 3,
            TagType::LONG => 4,
            TagType::RATIONAL => 5,
            TagType::SBYTE => 6,
            TagType::UNDEFINED => 7,
            TagType::SSHORT => 8,
            TagType::SLONG => 9,
            TagType::SRATIONAL => 10,
            TagType::FLOAT => 11,
            TagType::DOUBLE => 12,
            TagType::IFD => 13,
            TagType::LONG8 => 16,
            TagType::SLONG8 => 17,
            TagType::IFD8 => 18,
        }
    }

    /// The value that `code` stands for, if it stands for one.
    pub open spec fn spec_from_u16(code: u16) -> Option<TagType> {
        if code == 1 {
            Some(TagType::BYTE)
        } else if code == 2 {
            Some(TagType::ASCII)
        } else if code == 3 {
            Some(TagType::SHORT)
        } else if code == 4 {
            Some(TagType::LONG)
        } else if code == 5 {
            Some(TagType::RATIONAL)
        } else if code == 6 {
            Some(TagType::SBYTE)
        } else if code == 7 {
            Some(TagType::UNDEFINED)
        } else if code == 8 {
            Some(TagType::SSHORT)
        } else if code == 9 {
            Some(TagType::SLONG)
        } else if code == 10 {
            Some(TagType::SRATIONAL)
        } else if code == 11 {
            Some(TagType::FLOAT)
        } else if code == 12 {
            Some(TagType::DOUBLE)
        } else if code == 13 {
            Some(TagType::IFD)
        } else if code == 16 {
            Some(TagType::LONG8)
        } else if code == 17 {
            Some(TagType::SLONG8)
        } else if code == 18 {
            Some(TagType::IFD8)
        } else {
            None
        }
    }

    /// The number that stands for this value in a file.
    pub fn code(&self) -> (code: u16)
        ensures
            code == self.spec_code(),
    {
        match self {
            TagType::BYTE => 1,
            TagType::ASCII => 2,
            TagType::SHORT => 3,
            TagType::LONG => 4,
            TagType::RATIONAL => 5,
            TagType::SBYTE => 6,
            TagType::UNDEFINED => 7,
            TagType::SSHORT => 8,
            TagType::SLONG => 9,
            TagType::SRATIONAL => 10,
            TagType::FLOAT => 11,
            TagType::DOUBLE => 12,
            TagType::IFD => 13,
            TagType::LONG8 => 16,
            TagType::SLONG8 => 17,
            TagType::IFD8 => 18,
        }
    }

    /// The value that `code` stands for, if it stands for one.
    pub fn from_u16(code: u16) -> (decoded: Option<TagType>)
        ensures
            match decoded {
                Some(value) => value.spec_code() == code,
                None => forall|value: TagType| #[trigger] value.spec_code() != code,
            },
            decoded == TagType::spec_from_u16(code),
    {
        match code {
            1 => Some(TagType::BYTE),
            2 => Some(TagType::ASCII),
            3 => Some(TagType::SHORT),
            4 => Some(TagType::LONG),
            5 => Some(TagType::RATIONAL),
            6 => Some(TagType::SBYTE),
            7 => Some(TagType::UNDEFINED),
            8 => Some(TagType::SSHORT),
            9 => Some(TagType::SLONG),
            10 => Some(TagType::SRATIONAL),
            11 => Some(TagType::FLOAT),
            12 => Some(TagType::DOUBLE),
            13 => Some(TagType::IFD),
            16 => Some(TagType::LONG8),
            17 => Some(TagType::SLONG8),
            18 => Some(TagType::IFD8),
            _ => None,
        }
    }
}
/// The number of bytes that a value of the given type is counted with.
pub open spec fn spec_tag_size(t: TagType) -> u32 {
    match t {
        TagType::BYTE | TagType::ASCII | TagType::SBYTE | TagType::UNDEFINED => 1,
        TagType::SHORT | TagType::SSHORT | TagType::SLONG => 2,
        TagType::LONG | TagType::FLOAT | TagType::IFD => 4,
        TagType::RATIONAL
        | TagType::SRATIONAL
        | TagType::DOUBLE
        | TagType::LONG8
        | TagType::SLONG8
        | TagType::IFD8 => 8,
    }
}

/// Helper function that returns the size of a certain tag.
pub fn tag_size(t: &TagType) -> (size: u32)
    ensures
        size == spec_tag_size(*t),
{
    match *t {
        TagType::BYTE => 1,
        TagType::ASCII => 1,
        TagType::SHORT => 2,
        TagType::LONG => 4,
        TagType::RATIONAL => 8,
        TagType::SBYTE => 1,
        TagType::UNDEFINED => 1,
        TagType::SSHORT => 2,
        TagType::SLONG => 2,
        TagType::SRATIONAL => 8,
        TagType::FLOAT => 4,
        TagType::DOUBLE => 8,
        TagType::IFD => 4,
        TagType::LONG8 => 8,
        TagType::SLONG8 => 8,
        TagType::IFD8 => 8,
    }
}

/// All the possible values of tags. A floating point value is held as the
/// bits of its IEEE 754 encoding.
#[derive(Debug, PartialEq, Eq)]
pub enum TagValue {
    ByteValue(BYTE),
    AsciiValue(ASCII),
    ShortValue(SHORT),
    LongValue(LONG),
    RationalValue(RATIONAL),
    SignedByteValue(SBYTE),
    SignedShortValue(SSHORT),
    SignedLongValue(SLONG),
    SignedRationalValue(SRATIONAL),
    FloatValue(u32),
    DoubleValue(u64),
}

/// The photometric interpretation of the GeoTIFF.
#[derive(Clone, Copy, Debug, PartialEq, Eq, Hash, Structural)]
pub enum PhotometricInterpretation {
    WhiteIsZero,
    BlackIsZero,
}

impl PhotometricInterpretation {
    /// The number that stands for this value in a file.
    pub open spec fn spec_code(self) -> u16 {
        match self {
            PhotometricInterpretation::WhiteIsZero => 0,
            PhotometricInterpretation::BlackIsZero => 1,
        }
    }

    /// The value that `code` stands for, if it stands for one.
    pub open spec fn spec_from_u16(code: u16) -> Option<PhotometricInterpretation> {
        if code == 0 {
            Some(PhotometricInterpretation::WhiteIsZero)
        } else if code == 1 {
            Some(PhotometricInterpretation::BlackIsZero)
        } else {
            None
        }
    }

    /// The number that stands for this value in a file.
    pub fn code(&self) -> (code: u16)
        ensures
            code == self.spec_code(),
    {
        match self {
            PhotometricInterpretation::WhiteIsZero => 0,
            PhotometricInterpretation::BlackIsZero => 1,
        }
    }

    /// The value that `code` stands for, if it stands for one.
    pub fn from_u16(code: u16) -> (decoded: Option<PhotometricInterpretation>)
        ensures
            match decoded {
                Some(value) => value.spec_code() == code,
                None => forall|value: PhotometricInterpretation| #[trigger] value.spec_code() != code,
            },
            decoded == PhotometricInterpretation::spec_from_u16(code),
    {
        match code {
            0 => Some(PhotometricInterpretation::WhiteIsZero),
            1 => Some(PhotometricInterpretation::BlackIsZero),
            _ => None,
        }
    }
}
/// The compression chosen for this TIFF.
#[derive(Clone, Copy, Debug, PartialEq, Eq, Hash, Structural)]
pub enum Compression {
    /// The data is stored as it is.
    Uncompressed,
    Huffman,
    LZW,
    OJPEG,
    JPEG,
    AdobeDeflate,
    PackBits,
}

impl Compression {
    /// The number that stands for this value in a file.
    pub open spec fn spec_code(self) -> u16 {
        match self {
            Compression::Uncompressed => 1,
            Compression::Huffman => 2,
            Compression::LZW => 5,
            Compression::OJPEG => 6,
            Compression::JPEG => 7,
            Compression::AdobeDeflate => 8,
            Compression::PackBits => 32773,
        }
    }

    /// The value that `code` stands for, if it stands for one.
    pub open spec fn spec_from_u16(code: u16) -> Option<Compression> {
        if code == 1 {
            Some(Compression::Uncompressed)
        } else if code == 2 {
            Some(Compression::Huffman)
        } else if code == 5 {
            Some(Compression::LZW)
        } else if code == 6 {
            Some(Compression::OJPEG)
        } else if code == 7 {
            Some(Compression::JPEG)
        } else if code == 8 {
            Some(Compression::AdobeDeflate)
        } else if code == 32773 {
            Some(Compression::PackBits)
        } else {
            None
        }
    }

    /// The number that stands for this value in a file.
    pub fn code(&self) -> (code: u16)
        ensures
            code == self.spec_code(),
    {
        match self {
            Compression::Uncompressed => 1,
            Compression::Huffman => 2,
            Compression::LZW => 5,
            Compression::OJPEG => 6,
            Compression::JPEG => 7,
            Compression::AdobeDeflate => 8,
            Compression::PackBits => 32773,
        }
    }

    /// The value that `code` stands for, if it stands for one.
    pub fn from_u16(code: u16) -> (decoded: Option<Compression>)
        ensures
            match decoded {
                Some(value) => value.spec_code() == code,
                None => forall|value: Compression| #[trigger] value.spec_code() != code,
            },
            decoded == Compression::spec_from_u16(code),
    {
        match code {
            1 => Some(Compression::Uncompressed),
            2 => Some(Compression::Huffman),
            5 => Some(Compression::LZW),
            6 => Some(Compression::OJPEG),
            7 => Some(Compression::JPEG),
            8 => Some(Compression::AdobeDeflate),
            32773 => Some(Compression::PackBits),
            _ => None,
        }
    }
}
/// The resolution unit of this TIFF.
#[derive(Clone, Copy, Debug, PartialEq, Eq, Hash, Structural)]
pub enum ResolutionUnit {
    /// The resolution has no unit.
    NoUnit,
    Inch,
    Centimetre,
}

impl ResolutionUnit {
    /// The number that stands for this value in a file.
    pub open spec fn spec_code(self) -> u16 {
        match self {
            ResolutionUnit::NoUnit => 1,
            ResolutionUnit::Inch => 2,
            ResolutionUnit::Centimetre => 3,
        }
    }

    /// The value that `code` stands for, if it stands for one.
    pub open spec fn spec_from_u16(code: u16) -> Option<ResolutionUnit> {
        if code == 1 {
            Some(ResolutionUnit::NoUnit)
        } else if code == 2 {
            Some(ResolutionUnit::Inch)
        } else if code == 3 {
            Some(ResolutionUnit::Centimetre)
        } else {
            None
        }
    }

    /// The number that stands for this value in a file.
    pub fn code(&self) -> (code: u16)
        ensures
            code == self.spec_code(),
    {
        match self {
            ResolutionUnit::NoUnit => 1,
            ResolutionUnit::Inch => 2,
            ResolutionUnit::Centimetre => 3,
        }
    }

    /// The value that `code` stands for, if it stands for one.
    pub fn from_u16(code: u16) -> (decoded: Option<ResolutionUnit>)
        ensures
            match decoded {
                Some(value) => value.spec_code() == code,
                None => forall|value: ResolutionUnit| #[trigger] value.spec_code() != code,
            },
            decoded == ResolutionUnit::spec_from_u16(code),
    {
        match code {
            1 => Some(ResolutionUnit::NoUnit),
            2 => Some(ResolutionUnit::Inch),
            3 => Some(ResolutionUnit::Centimetre),
            _ => None,
        }
    }
}
/// The sample format of this TIFF.
#[derive(Clone, Copy, Debug, PartialEq, Eq, Hash, Structural)]
pub enum SampleFormat {
    UnsignedInteger,
    TwosComplementSignedInteger,
    IEEEFloatingPoint,
    Undefined,
}

impl SampleFormat {
    /// The number that stands for this value in a file.
    pub open spec fn spec_code(self) -> u16 {
        match self {
            SampleFormat::UnsignedInteger => 1,
            SampleFormat::TwosComplementSignedInteger => 2,
            SampleFormat::IEEEFloatingPoint => 3,
            SampleFormat::Undefined => 4,
        }
    }

    /// The value that `code` stands for, if it stands for one.
    pub open spec fn spec_from_u16(code: u16) -> Option<SampleFormat> {
        if code == 1 {
            Some(SampleFormat::UnsignedInteger)
        } else if code == 2 {
            Some(SampleFormat::TwosComplementSignedInteger)
        } else if code == 3 {
            Some(SampleFormat::IEEEFloatingPoint)
        } else if code == 4 {
            Some(SampleFormat::Undefined)
        } else {
            None
        }
    }

    /// The number that stands for this value in a file.
    pub fn code(&self) -> (code: u16)
        ensures
            code == self.spec_code(),
    {
        match self {
            SampleFormat::UnsignedInteger => 1,
            SampleFormat::TwosComplementSignedInteger => 2,
            SampleFormat::IEEEFloatingPoint => 3,
            SampleFormat::Undefined => 4,
        }
    }

    /// The value that `code` stands for, if it stands for one.
    pub fn from_u16(code: u16) -> (decoded: Option<SampleFormat>)
        ensures
            match decoded {
                Some(value) => value.spec_code() == code,
                None => forall|value: SampleFormat| #[trigger] value.spec_code() != code,
            },
            decoded == SampleFormat::spec_from_u16(code),
    {
        match code {
            1 => Some(SampleFormat::UnsignedInteger),
            2 => Some(SampleFormat::TwosComplementSignedInteger),
            3 => Some(SampleFormat::IEEEFloatingPoint),
            4 => Some(SampleFormat::Undefined),
            _ => None,
        }
    }
}
/// The image type of this TIFF.
#[derive(Clone, Copy, Debug, PartialEq, Eq, Hash, Structural)]
pub enum ImageType {
    Bilevel,
    Grayscale,
    PaletteColour,
    RGB,
    YCbCr,
}

/// The image orientation of this TIFF.
#[derive(Clone, Copy, Debug, PartialEq, Eq, Hash, Structural)]
pub enum ImageOrientation {
    /// row 0 top, col 0 lhs
    TopLeft,
    /// row 0 top, col 0 rhs
    TopRight,
    /// row 0 bottom, col 0 rhs
    BottomRight,
    /// row 0 bottom, col 0 lhs
    BottomLeft,
    /// row 0 lhs, col 0 top
    LeftTop,
    /// row 0 rhs, col 0 top
    RightTop,
    /// row 0 rhs, col 0 bottom
    RightBottom,
    /// row 0 lhs, col 0 bottom
    LeftBottom,
}

impl ImageOrientation {
    /// The number that stands for this value in a file.
    pub open spec fn spec_code(self) -> u16 {
        match self {
            ImageOrientation::TopLeft => 1,
            ImageOrientation::TopRight => 2,
            ImageOrientation::BottomRight => 3,
            ImageOrientation::BottomLeft => 4,
            ImageOrientation::LeftTop => 5,
            ImageOrientation::RightTop => 6,
            ImageOrientation::RightBottom => 7,
            ImageOrientation::LeftBottom => 8,
        }
    }

    /// The value that `code` stands for, if it stands for one.
    pub open spec fn spec_from_u16(code: u16) -> Option<ImageOrientation> {
        if code == 1 {
            Some(ImageOrientation::TopLeft)
        } else if code == 2 {
            Some(ImageOrientation::TopRight)
        } else if code == 3 {
            Some(ImageOrientation::BottomRight)
        } else if code == 4 {
            Some(ImageOrientation::BottomLeft)
        } else if code == 5 {
            Some(ImageOrientation::LeftTop)
        } else if code == 6 {
            Some(ImageOrientation::RightTop)
        } else if code == 7 {
            Some(ImageOrientation::RightBottom)
        } else if code == 8 {
            Some(ImageOrientation::LeftBottom)
        } else {
            None
        }
    }

    /// The number that stands for this value in a file.
    pub fn code(&self) -> (code: u16)
        ensures
            code == self.spec_code(),
    {
        match self {
            ImageOrientation::TopLeft => 1,
            ImageOrientation::TopRight => 2,
            ImageOrientation::BottomRight => 3,
            ImageOrientation::BottomLeft => 4,
            ImageOrientation::LeftTop => 5,
            ImageOrientation::RightTop => 6,
            ImageOrientation::RightBottom => 7,
            ImageOrientation::LeftBottom => 8,
        }
    }

    /// The value that `code` stands for, if it stands for one.
    pub fn from_u16(code: u16) -> (decoded: Option<ImageOrientation>)
        ensures
            match decoded {
                Some(value) => value.spec_code() == code,
                None => forall|value: ImageOrientation| #[trigger] value.spec_code() != code,
            },
            decoded == ImageOrientation::spec_from_u16(code),
    {
        match code {
            1 => Some(ImageOrientation::TopLeft),
            2 => Some(ImageOrientation::TopRight),
            3 => Some(ImageOrientation::BottomRight),
            4 => Some(ImageOrientation::BottomLeft),
            5 => Some(ImageOrientation::LeftTop),
            6 => Some(ImageOrientation::RightTop),
            7 => Some(ImageOrientation::RightBottom),
            8 => Some(ImageOrientation::LeftBottom),
            _ => None,
        }
    }
}
/// The tags of the TIFF format and of its extensions that are known here.
#[derive(Clone, Copy, Debug, PartialEq, Eq, Hash, Structural)]
pub enum TIFFTag {
    ArtistTag,
    BitsPerSampleTag,
    CellLengthTag,
    CellWidthTag,
    ColorMapTag,
    CompressionTag,
    CopyrightTag,
    DateTimeTag,
    ExtraSamplesTag,
    FillOrderTag,
    FreeByteCountsTag,
    FreeOffsetsTag,
    GrayResponseCurveTag,
    GrayResponseUnitTag,
    HostComputerTag,
    ImageDescriptionTag,
    ImageLengthTag,
    ImageWidthTag,
    MakeTag,
    MaxSampleValueTag,
    MinSampleValueTag,
    ModelTag,
    NewSubfileTypeTag,
    OrientationTag,
    PhotometricInterpretationTag,
    PlanarConfigurationTag,
    PredictorTag,
    ResolutionUnitTag,
    RowsPerStripTag,
    SampleFormatTag,
    SamplesPerPixelTag,
    SoftwareTag,
    StripByteCountsTag,
    StripOffsetsTag,
    SubfileTypeTag,
    ThresholdingTag,
    XResolutionTag,
    YResolutionTag,
    WhitePointTag,
    PrimaryChromaticities,
    TransferFunction,
    TransferRange,
    ReferenceBlackWhite,
    YCbCrCoefficients,
    YCbCrSubsampling,
    YCbCrPositioning,
    SubIFDsTag,
    JPEGTablesTag,
    CFARepeatPatternDimTag,
    BatteryLevelTag,
    ModelPixelScaleTag,
    IPTCTag,
    ModelTiepointTag,
    ModelTransformationTag,
    InterColorProfileTag,
    GeoKeyDirectoryTag,
    GeoDoubleParamsTag,
    GeoAsciiParamsTag,
    InterlaceTag,
    TimeZoneOffsetTag,
    SelfTimerModeTag,
    NoiseTag,
    ImageNumberTag,
    SecurityClassificationTag,
    ImageHistoryTag,
    EPStandardIdTag,
    XMPTag,
    PhotoshopTag,
    EXIFTag,
    GDALMETADATA,
    GDALNODATA,
}

impl TIFFTag {
    /// The number that stands for this value in a file.
    pub open spec fn spec_code(self) -> u16 {
        match self {
            TIFFTag::ArtistTag => 0x013b,
            TIFFTag::BitsPerSampleTag => 0x0102,
            TIFFTag::CellLengthTag => 0x0109,
            TIFFTag::CellWidthTag => 0x0108,
            TIFFTag::ColorMapTag => 0x0140,
            TIFFTag::CompressionTag => 0x0103,
            TIFFTag::CopyrightTag => 0x8298,
            TIFFTag::DateTimeTag => 0x0132,
            TIFFTag::ExtraSamplesTag => 0x0152,
            TIFFTag::FillOrderTag => 0x010a,
            TIFFTag::FreeByteCountsTag => 0x0121,
            TIFFTag::FreeOffsetsTag => 0x0120,
            TIFFTag::GrayResponseCurveTag => 0x0123,
            TIFFTag::GrayResponseUnitTag => 0x0122,
            TIFFTag::HostComputerTag => 0x013c,
            TIFFTag::ImageDescriptionTag => 0x010e,
            TIFFTag::ImageLengthTag => 0x0101,
            TIFFTag::ImageWidthTag => 0x0100,
            TIFFTag::MakeTag => 0x010f,
            TIFFTag::MaxSampleValueTag => 0x0119,
            TIFFTag::MinSampleValueTag => 0x0118,
            TIFFTag::ModelTag => 0x0110,
            TIFFTag::NewSubfileTypeTag => 0x00fe,
            TIFFTag::OrientationTag => 0x0112,
            TIFFTag::PhotometricInterpretationTag => 0x0106,
            TIFFTag::PlanarConfigurationTag => 0x011c,
            TIFFTag::PredictorTag => 0x013d,
            TIFFTag::ResolutionUnitTag => 0x0128,
            TIFFTag::RowsPerStripTag => 0x0116,
            TIFFTag::SampleFormatTag => 0x0153,
            TIFFTag::SamplesPerPixelTag => 0x0115,
            TIFFTag::SoftwareTag => 0x0131,
            TIFFTag::StripByteCountsTag => 0x0117,
            TIFFTag::StripOffsetsTag => 0x0111,
            TIFFTag::SubfileTypeTag => 0x00ff,
            TIFFTag::ThresholdingTag => 0x0107,
            TIFFTag::XResolutionTag => 0x011a,
            TIFFTag::YResolutionTag => 0x011b,
            TIFFTag::WhitePointTag => 0x013e,
            TIFFTag::PrimaryChromaticities => 0x013f,
            TIFFTag::TransferFunction => 0x012d,
            TIFFTag::TransferRange => 0x0156,
            TIFFTag::ReferenceBlackWhite => 0x0214,
            TIFFTag::YCbCrCoefficients => 0x0211,
            TIFFTag::YCbCrSubsampling => 0x0212,
            TIFFTag::YCbCrPositioning => 0x0213,
            TIFFTag::SubIFDsTag => 0x014a,
            TIFFTag::JPEGTablesTag => 0x015b,
            TIFFTag::CFARepeatPatternDimTag => 0x828d,
            TIFFTag::BatteryLevelTag => 0x828f,
            TIFFTag::ModelPixelScaleTag => 0x830e,
            TIFFTag::IPTCTag => 0x83bb,
            TIFFTag::ModelTiepointTag => 0x8482,
            TIFFTag::ModelTransformationTag => 0x85d8,
            TIFFTag::InterColorProfileTag => 0x8773,
            TIFFTag::GeoKeyDirectoryTag => 0x87af,
            TIFFTag::GeoDoubleParamsTag => 0x87b0,
            TIFFTag::GeoAsciiParamsTag => 0x87b1,
            TIFFTag::InterlaceTag => 0x8829,
            TIFFTag::TimeZoneOffsetTag => 0x882a,
            TIFFTag::SelfTimerModeTag => 0x882b,
            TIFFTag::NoiseTag => 0x920d,
            TIFFTag::ImageNumberTag => 0x9211,
            TIFFTag::SecurityClassificationTag => 0x9212,
            TIFFTag::ImageHistoryTag => 0x9213,
            TIFFTag::EPStandardIdTag => 0x9216,
            TIFFTag::XMPTag => 0x02bc,
            TIFFTag::PhotoshopTag => 0x8649,
            TIFFTag::EXIFTag => 0x8769,
            TIFFTag::GDALMETADATA => 0xa480,
            TIFFTag::GDALNODATA => 0xa481,
        }
    }

    /// The value that `code` stands for, if it stands for one.
    pub open spec fn spec_from_u16(code: u16) -> Option<TIFFTag> {
        if code == 0x013b {
            Some(TIFFTag::ArtistTag)
        } else if code == 0x0102 {
            Some(TIFFTag::BitsPerSampleTag)
        } else if code == 0x0109 {
            Some(TIFFTag::CellLengthTag)
        } else if code == 0x0108 {
            Some(TIFFTag::CellWidthTag)
        } else if code == 0x0140 {
            Some(TIFFTag::ColorMapTag)
        } else if code == 0x0103 {
            Some(TIFFTag::CompressionTag)
        } else if code == 0x8298 {
            Some(TIFFTag::CopyrightTag)
        } else if code == 0x0132 {
            Some(TIFFTag::DateTimeTag)
        } else if code == 0x0152 {
            Some(TIFFTag::ExtraSamplesTag)
        } else if code == 0x010a {
            Some(TIFFTag::FillOrderTag)
        } else if code == 0x0121 {
            Some(TIFFTag::FreeByteCountsTag)
        } else if code == 0x0120 {
            Some(TIFFTag::FreeOffsetsTag)
        } else if code == 0x0123 {
            Some(TIFFTag::GrayResponseCurveTag)
        } else if code == 0x0122 {
            Some(TIFFTag::GrayResponseUnitTag)
        } else if code == 0x013c {
            Some(TIFFTag::HostComputerTag)
        } else if code == 0x010e {
            Some(TIFFTag::ImageDescriptionTag)
        } else if code == 0x0101 {
            Some(TIFFTag::ImageLengthTag)
        } else if code == 0x0100 {
            Some(TIFFTag::ImageWidthTag)
        } else if code == 0x010f {
            Some(TIFFTag::MakeTag)
        } else if code == 0x0119 {
            Some(TIFFTag::MaxSampleValueTag)
        } else if code == 0x0118 {
            Some(TIFFTag::MinSampleValueTag)
        } else if code == 0x0110 {
            Some(TIFFTag::ModelTag)
        } else if code == 0x00fe {
            Some(TIFFTag::NewSubfileTypeTag)
        } else if code == 0x0112 {
            Some(TIFFTag::OrientationTag)
        } else if code == 0x0106 {
            Some(TIFFTag::PhotometricInterpretationTag)
        } else if code == 0x011c {
            Some(TIFFTag::PlanarConfigurationTag)
        } else if code == 0x013d {
            Some(TIFFTag::PredictorTag)
        } else if code == 0x0128 {
            Some(TIFFTag::ResolutionUnitTag)
        } else if code == 0x0116 {
            Some(TIFFTag::RowsPerStripTag)
        } else if code == 0x0153 {
            Some(TIFFTag::SampleFormatTag)
        } else if code == 0x0115 {
            Some(TIFFTag::SamplesPerPixelTag)
        } else if code == 0x0131 {
            Some(TIFFTag::SoftwareTag)
        } else if code == 0x0117 {
            Some(TIFFTag::StripByteCountsTag)
        } else if code == 0x0111 {
            Some(TIFFTag::StripOffsetsTag)
        } else if code == 0x00ff {
            Some(TIFFTag::SubfileTypeTag)
        } else if code == 0x0107 {
            Some(TIFFTag::ThresholdingTag)
        } else if code == 0x011a {
            Some(TIFFTag::XResolutionTag)
        } else if code == 0x011b {
            Some(TIFFTag::YResolutionTag)
        } else if code == 0x013e {
            Some(TIFFTag::WhitePointTag)
        } else if code == 0x013f {
            Some(TIFFTag::PrimaryChromaticities)
        } else if code == 0x012d {
            Some(TIFFTag::TransferFunction)
        } else if code == 0x0156 {
            Some(TIFFTag::TransferRange)
        } else if code == 0x0214 {
            Some(TIFFTag::ReferenceBlackWhite)
        } else if code == 0x0211 {
            Some(TIFFTag::YCbCrCoefficients)
        } else if code == 0x0212 {
            Some(TIFFTag::YCbCrSubsampling)
        } else if code == 0x0213 {
            Some(TIFFTag::YCbCrPositioning)
        } else if code == 0x014a {
            Some(TIFFTag::SubIFDsTag)
        } else if code == 0x015b {
            Some(TIFFTag::JPEGTablesTag)
        } else if code == 0x828d {
            Some(TIFFTag::CFARepeatPatternDimTag)
        } else if code == 0x828f {
            Some(TIFFTag::BatteryLevelTag)
        } else if code == 0x830e {
            Some(TIFFTag::ModelPixelScaleTag)
        } else if code == 0x83bb {
            Some(TIFFTag::IPTCTag)
        } else if code == 0x8482 {
            Some(TIFFTag::ModelTiepointTag)
        } else if code == 0x85d8 {
            Some(TIFFTag::ModelTransformationTag)
        } else if code == 0x8773 {
            Some(TIFFTag::InterColorProfileTag)
        } else if code == 0x87af {
            Some(TIFFTag::GeoKeyDirectoryTag)
        } else if code == 0x87b0 {
            Some(TIFFTag::GeoDoubleParamsTag)
        } else if code == 0x87b1 {
            Some(TIFFTag::GeoAsciiParamsTag)
        } else if code == 0x8829 {
            Some(TIFFTag::InterlaceTag)
        } else if code == 0x882a {
            Some(TIFFTag::TimeZoneOffsetTag)
        } else if code == 0x882b {
            Some(TIFFTag::SelfTimerModeTag)
        } else if code == 0x920d {
            Some(TIFFTag::NoiseTag)
        } else if code == 0x9211 {
            Some(TIFFTag::ImageNumberTag)
        } else if code == 0x9212 {
            Some(TIFFTag::SecurityClassificationTag)
        } else if code == 0x9213 {
            Some(TIFFTag::ImageHistoryTag)
        } else if code == 0x9216 {
            Some(TIFFTag::EPStandardIdTag)
        } else if code == 0x02bc {
            Some(TIFFTag::XMPTag)
        } else if code == 0x8649 {
            Some(TIFFTag::PhotoshopTag)
        } else if code == 0x8769 {
            Some(TIFFTag::EXIFTag)
        } else if code == 0xa480 {
            Some(TIFFTag::GDALMETADATA)
        } else if code == 0xa481 {
            Some(TIFFTag::GDALNODATA)
        } else {
            None
        }
    }

    /// The number that stands for this value in a file.
    pub fn code(&self) -> (code: u16)
        ensures
            code == self.spec_code(),
    {
        match self {
            TIFFTag::ArtistTag => 0x013b,
            TIFFTag::BitsPerSampleTag => 0x0102,
            TIFFTag::CellLengthTag => 0x0109,
            TIFFTag::CellWidthTag => 0x0108,
            TIFFTag::ColorMapTag => 0x0140,
            TIFFTag::CompressionTag => 0x0103,
            TIFFTag::CopyrightTag => 0x8298,
            TIFFTag::DateTimeTag => 0x0132,
            TIFFTag::ExtraSamplesTag => 0x0152,
            TIFFTag::FillOrderTag => 0x010a,
            TIFFTag::FreeByteCountsTag => 0x0121,
            TIFFTag::FreeOffsetsTag => 0x0120,
            TIFFTag::GrayResponseCurveTag => 0x0123,
            TIFFTag::GrayResponseUnitTag => 0x0122,
            TIFFTag::HostComputerTag => 0x013c,
            TIFFTag::ImageDescriptionTag => 0x010e,
            TIFFTag::ImageLengthTag => 0x0101,
            TIFFTag::ImageWidthTag => 0x0100,
            TIFFTag::MakeTag => 0x010f,
            TIFFTag::MaxSampleValueTag => 0x0119,
            TIFFTag::MinSampleValueTag => 0x0118,
            TIFFTag::ModelTag => 0x0110,
            TIFFTag::NewSubfileTypeTag => 0x00fe,
            TIFFTag::OrientationTag => 0x0112,
            TIFFTag::PhotometricInterpretationTag => 0x0106,
            TIFFTag::PlanarConfigurationTag => 0x011c,
            TIFFTag::PredictorTag => 0x013d,
            TIFFTag::ResolutionUnitTag => 0x0128,
            TIFFTag::RowsPerStripTag => 0x0116,
            TIFFTag::SampleFormatTag => 0x0153,
            TIFFTag::SamplesPerPixelTag => 0x0115,
            TIFFTag::SoftwareTag => 0x0131,
            TIFFTag::StripByteCountsTag => 0x0117,
            TIFFTag::StripOffsetsTag => 0x0111,
            TIFFTag::SubfileTypeTag => 0x00ff,
            TIFFTag::ThresholdingTag => 0x0107,
            TIFFTag::XResolutionTag => 0x011a,
            TIFFTag::YResolutionTag => 0x011b,
            TIFFTag::WhitePointTag => 0x013e,
            TIFFTag::PrimaryChromaticities => 0x013f,
            TIFFTag::TransferFunction => 0x012d,
            TIFFTag::TransferRange => 0x0156,
            TIFFTag::ReferenceBlackWhite => 0x0214,
            TIFFTag::YCbCrCoefficients => 0x0211,
            TIFFTag::YCbCrSubsampling => 0x0212,
            TIFFTag::YCbCrPositioning => 0x0213,
            TIFFTag::SubIFDsTag => 0x014a,
            TIFFTag::JPEGTablesTag => 0x015b,
            TIFFTag::CFARepeatPatternDimTag => 0x828d,
            TIFFTag::BatteryLevelTag => 0x828f,
            TIFFTag::ModelPixelScaleTag => 0x830e,
            TIFFTag::IPTCTag => 0x83bb,
            TIFFTag::ModelTiepointTag => 0x8482,
            TIFFTag::ModelTransformationTag => 0x85d8,
            TIFFTag::InterColorProfileTag => 0x8773,
            TIFFTag::GeoKeyDirectoryTag => 0x87af,
            TIFFTag::GeoDoubleParamsTag => 0x87b0,
            TIFFTag::GeoAsciiParamsTag => 0x87b1,
            TIFFTag::InterlaceTag => 0x8829,
            TIFFTag::TimeZoneOffsetTag => 0x882a,
            TIFFTag::SelfTimerModeTag => 0x882b,
            TIFFTag::NoiseTag => 0x920d,
            TIFFTag::ImageNumberTag => 0x9211,
            TIFFTag::SecurityClassificationTag => 0x9212,
            TIFFTag::ImageHistoryTag => 0x9213,
            TIFFTag::EPStandardIdTag => 0x9216,
            TIFFTag::XMPTag => 0x02bc,
            TIFFTag::PhotoshopTag => 0x8649,
            TIFFTag::EXIFTag => 0x8769,
            TIFFTag::GDALMETADATA => 0xa480,
            TIFFTag::GDALNODATA => 0xa481,
        }
    }

    /// The value that `code` stands for, if it stands for one.
    pub fn from_u16(code: u16) -> (decoded: Option<TIFFTag>)
        ensures
            match decoded {
                Some(value) => value.spec_code() == code,
                None => forall|value: TIFFTag| #[trigger] value.spec_code() != code,
            },
            decoded == TIFFTag::spec_from_u16(code),
    {
        match code {
            0x013b => Some(TIFFTag::ArtistTag),
            0x0102 => Some(TIFFTag::BitsPerSampleTag),
            0x0109 => Some(TIFFTag::CellLengthTag),
            0x0108 => Some(TIFFTag::CellWidthTag),
            0x0140 => Some(TIFFTag::ColorMapTag),
            0x0103 => Some(TIFFTag::CompressionTag),
            0x8298 => Some(TIFFTag::CopyrightTag),
            0x0132 => Some(TIFFTag::DateTimeTag),
            0x0152 => Some(TIFFTag::ExtraSamplesTag),
            0x010a => Some(TIFFTag::FillOrderTag),
            0x0121 => Some(TIFFTag::FreeByteCountsTag),
            0x0120 => Some(TIFFTag::FreeOffsetsTag),
            0x0123 => Some(TIFFTag::GrayResponseCurveTag),
            0x0122 => Some(TIFFTag::GrayResponseUnitTag),
            0x013c => Some(TIFFTag::HostComputerTag),
            0x010e => Some(TIFFTag::ImageDescriptionTag),
            0x0101 => Some(TIFFTag::ImageLengthTag),
            0x0100 => Some(TIFFTag::ImageWidthTag),
            0x010f => Some(TIFFTag::MakeTag),
            0x0119 => Some(TIFFTag::MaxSampleValueTag),
            0x0118 => Some(TIFFTag::MinSampleValueTag),
            0x0110 => Some(TIFFTag::ModelTag),
            0x00fe => Some(TIFFTag::NewSubfileTypeTag),
            0x0112 => Some(TIFFTag::OrientationTag),
            0x0106 => Some(TIFFTag::PhotometricInterpretationTag),
            0x011c => Some(TIFFTag::PlanarConfigurationTag),
            0x013d => Some(TIFFTag::PredictorTag),
            0x0128 => Some(TIFFTag::ResolutionUnitTag),
            0x0116 => Some(TIFFTag::RowsPerStripTag),
            0x0153 => Some(TIFFTag::SampleFormatTag),
            0x0115 => Some(TIFFTag::SamplesPerPixelTag),
            0x0131 => Some(TIFFTag::SoftwareTag),
            0x0117 => Some(TIFFTag::StripByteCountsTag),
            0x0111 => Some(TIFFTag::StripOffsetsTag),
            0x00ff => Some(TIFFTag::SubfileTypeTag),
            0x0107 => Some(TIFFTag::ThresholdingTag),
            0x011a => Some(TIFFTag::XResolutionTag),
            0x011b => Some(TIFFTag::YResolutionTag),
            0x013e => Some(TIFFTag::WhitePointTag),
            0x013f => Some(TIFFTag::PrimaryChromaticities),
            0x012d => Some(TIFFTag::TransferFunction),
            0x0156 => Some(TIFFTag::TransferRange),
            0x0214 => Some(TIFFTag::ReferenceBlackWhite),
            0x0211 => Some(TIFFTag::YCbCrCoefficients),
            0x0212 => Some(TIFFTag::YCbCrSubsampling),
            0x0213 => Some(TIFFTag::YCbCrPositioning),
            0x014a => Some(TIFFTag::SubIFDsTag),
            0x015b => Some(TIFFTag::JPEGTablesTag),
            0x828d => Some(TIFFTag::CFARepeatPatternDimTag),
            0x828f => Some(TIFFTag::BatteryLevelTag),
            0x830e => Some(TIFFTag::ModelPixelScaleTag),
            0x83bb => Some(TIFFTag::IPTCTag),
            0x8482 => Some(TIFFTag::ModelTiepointTag),
            0x85d8 => Some(TIFFTag::ModelTransformationTag),
            0x8773 => Some(TIFFTag::InterColorProfileTag),
            0x87af => Some(TIFFTag::GeoKeyDirectoryTag),
            0x87b0 => Some(TIFFTag::GeoDoubleParamsTag),
            0x87b1 => Some(TIFFTag::GeoAsciiParamsTag),
            0x8829 => Some(TIFFTag::InterlaceTag),
            0x882a => Some(TIFFTag::TimeZoneOffsetTag),
            0x882b => Some(TIFFTag::SelfTimerModeTag),
            0x920d => Some(TIFFTag::NoiseTag),
            0x9211 => Some(TIFFTag::ImageNumberTag),
            0x9212 => Some(TIFFTag::SecurityClassificationTag),
            0x9213 => Some(TIFFTag::ImageHistoryTag),
            0x9216 => Some(TIFFTag::EPStandardIdTag),
            0x02bc => Some(TIFFTag::XMPTag),
            0x8649 => Some(TIFFTag::PhotoshopTag),
            0x8769 => Some(TIFFTag::EXIFTag),
            0xa480 => Some(TIFFTag::GDALMETADATA),
            0xa481 => Some(TIFFTag::GDALNODATA),
            _ => None,
        }
    }
}
} // verus!
