use geotiff::lowlevel::{
    tag_size, Compression, ImageOrientation, ImageType, PhotometricInterpretation, ResolutionUnit,
    SampleFormat, TIFFByteOrder, TIFFTag, TagType,
};
use geotiff::tiff::{decode_tag, decode_tag_type, validate_required_tags_for, TIFFHeader, IFD};

#[test]
fn tag_size_of_each_type() {
    assert_eq!(tag_size(&TagType::BYTE), 1);
    assert_eq!(tag_size(&TagType::ASCII), 1);
    assert_eq!(tag_size(&TagType::SHORT), 2);
    assert_eq!(tag_size(&TagType::LONG), 4);
    assert_eq!(tag_size(&TagType::RATIONAL), 8);
    assert_eq!(tag_size(&TagType::SBYTE), 1);
    assert_eq!(tag_size(&TagType::UNDEFINED), 1);
    assert_eq!(tag_size(&TagType::SSHORT), 2);
    assert_eq!(tag_size(&TagType::SLONG), 2);
    assert_eq!(tag_size(&TagType::SRATIONAL), 8);
    assert_eq!(tag_size(&TagType::FLOAT), 4);
    assert_eq!(tag_size(&TagType::DOUBLE), 8);
    assert_eq!(tag_size(&TagType::IFD), 4);
    assert_eq!(tag_size(&TagType::LONG8), 8);
    assert_eq!(tag_size(&TagType::SLONG8), 8);
    assert_eq!(tag_size(&TagType::IFD8), 8);
}

#[test]
fn decode_tag_knows_the_baseline_tags() {
    assert_eq!(decode_tag(0x0100), Some(TIFFTag::ImageWidthTag));
    assert_eq!(decode_tag(0x0101), Some(TIFFTag::ImageLengthTag));
    assert_eq!(decode_tag(0x0102), Some(TIFFTag::BitsPerSampleTag));
    assert_eq!(decode_tag(0x0103), Some(TIFFTag::CompressionTag));
    assert_eq!(decode_tag(0x0111), Some(TIFFTag::StripOffsetsTag));
    assert_eq!(decode_tag(0x0116), Some(TIFFTag::RowsPerStripTag));
    assert_eq!(decode_tag(0x0117), Some(TIFFTag::StripByteCountsTag));
    assert_eq!(decode_tag(0x830e), Some(TIFFTag::ModelPixelScaleTag));
    assert_eq!(decode_tag(0x8482), Some(TIFFTag::ModelTiepointTag));
    assert_eq!(decode_tag(0x85d8), Some(TIFFTag::ModelTransformationTag));
    assert_eq!(decode_tag(0x87af), Some(TIFFTag::GeoKeyDirectoryTag));
    assert_eq!(decode_tag(0x87b0), Some(TIFFTag::GeoDoubleParamsTag));
    assert_eq!(decode_tag(0x87b1), Some(TIFFTag::GeoAsciiParamsTag));
    assert_eq!(decode_tag(0xa481), Some(TIFFTag::GDALNODATA));
    assert_eq!(decode_tag(0), None);
    assert_eq!(decode_tag(0x0142), None);
    assert_eq!(decode_tag(0xffff), None);
}

#[test]
fn decode_tag_is_the_inverse_of_code() {
    let mut known = 0;
    for code in 0..=u16::MAX {
        if let Some(tag) = decode_tag(code) {
            assert_eq!(tag.code(), code);
            assert_eq!(TIFFTag::from_u16(code), Some(tag));
            known += 1;
        }
    }
    assert_eq!(known, 71);
}

#[test]
fn decode_tag_type_knows_the_types() {
    assert_eq!(decode_tag_type(0), None);
    assert_eq!(decode_tag_type(1), Some(TagType::BYTE));
    assert_eq!(decode_tag_type(2), Some(TagType::ASCII));
    assert_eq!(decode_tag_type(3), Some(TagType::SHORT));
    assert_eq!(decode_tag_type(4), Some(TagType::LONG));
    assert_eq!(decode_tag_type(5), Some(TagType::RATIONAL));
    assert_eq!(decode_tag_type(6), Some(TagType::SBYTE));
    assert_eq!(decode_tag_type(7), Some(TagType::UNDEFINED));
    assert_eq!(decode_tag_type(8), Some(TagType::SSHORT));
    assert_eq!(decode_tag_type(9), Some(TagType::SLONG));
    assert_eq!(decode_tag_type(10), Some(TagType::SRATIONAL));
    assert_eq!(decode_tag_type(11), Some(TagType::FLOAT));
    assert_eq!(decode_tag_type(12), Some(TagType::DOUBLE));
    assert_eq!(decode_tag_type(13), Some(TagType::IFD));
    assert_eq!(decode_tag_type(14), None);
    assert_eq!(decode_tag_type(15), None);
    assert_eq!(decode_tag_type(16), Some(TagType::LONG8));
    assert_eq!(decode_tag_type(17), Some(TagType::SLONG8));
    assert_eq!(decode_tag_type(18), Some(TagType::IFD8));
    assert_eq!(decode_tag_type(19), None);
    for code in 0..=u16::MAX {
        if let Some(tag_type) = decode_tag_type(code) {
            assert_eq!(tag_type.code(), code);
        }
    }
}

#[test]
fn validate_required_tags_for_rgb_adds_samples_per_pixel() {
    assert_eq!(validate_required_tags_for(&ImageType::RGB), Some(vec![TIFFTag::SamplesPerPixelTag]));
}

#[test]
fn validate_required_tags_for_other_types_says_nothing() {
    assert_eq!(validate_required_tags_for(&ImageType::Bilevel), None);
    assert_eq!(validate_required_tags_for(&ImageType::Grayscale), None);
    assert_eq!(validate_required_tags_for(&ImageType::PaletteColour), None);
    assert_eq!(validate_required_tags_for(&ImageType::YCbCr), None);
}

#[test]
fn byte_order_codes() {
    assert_eq!(TIFFByteOrder::LittleEndian.code(), 0x4949);
    assert_eq!(TIFFByteOrder::BigEndian.code(), 0x4d4d);
    assert_eq!(TIFFByteOrder::from_u16(0x4949), Some(TIFFByteOrder::LittleEndian));
    assert_eq!(TIFFByteOrder::from_u16(0x4d4d), Some(TIFFByteOrder::BigEndian));
    assert_eq!(TIFFByteOrder::from_u16(0x494d), None);
}

#[test]
fn compression_codes() {
    assert_eq!(Compression::Uncompressed.code(), 1);
    assert_eq!(Compression::Huffman.code(), 2);
    assert_eq!(Compression::LZW.code(), 5);
    assert_eq!(Compression::OJPEG.code(), 6);
    assert_eq!(Compression::JPEG.code(), 7);
    assert_eq!(Compression::AdobeDeflate.code(), 8);
    assert_eq!(Compression::PackBits.code(), 32773);
    assert_eq!(Compression::from_u16(1), Some(Compression::Uncompressed));
    assert_eq!(Compression::from_u16(8), Some(Compression::AdobeDeflate));
    assert_eq!(Compression::from_u16(32773), Some(Compression::PackBits));
    assert_eq!(Compression::from_u16(0), None);
    assert_eq!(Compression::from_u16(3), None);
}

#[test]
fn codes_of_the_small_enums() {
    assert_eq!(PhotometricInterpretation::WhiteIsZero.code(), 0);
    assert_eq!(PhotometricInterpretation::BlackIsZero.code(), 1);
    assert_eq!(PhotometricInterpretation::from_u16(1), Some(PhotometricInterpretation::BlackIsZero));
    assert_eq!(PhotometricInterpretation::from_u16(2), None);
    assert_eq!(ResolutionUnit::NoUnit.code(), 1);
    assert_eq!(ResolutionUnit::Inch.code(), 2);
    assert_eq!(ResolutionUnit::Centimetre.code(), 3);
    assert_eq!(ResolutionUnit::from_u16(3), Some(ResolutionUnit::Centimetre));
    assert_eq!(ResolutionUnit::from_u16(0), None);
    assert_eq!(SampleFormat::UnsignedInteger.code(), 1);
    assert_eq!(SampleFormat::TwosComplementSignedInteger.code(), 2);
    assert_eq!(SampleFormat::IEEEFloatingPoint.code(), 3);
    assert_eq!(SampleFormat::Undefined.code(), 4);
    assert_eq!(SampleFormat::from_u16(4), Some(SampleFormat::Undefined));
    assert_eq!(SampleFormat::from_u16(5), None);
    assert_eq!(ImageOrientation::TopLeft.code(), 1);
    assert_eq!(ImageOrientation::LeftBottom.code(), 8);
    assert_eq!(ImageOrientation::from_u16(4), Some(ImageOrientation::BottomLeft));
    assert_eq!(ImageOrientation::from_u16(9), None);
}

#[test]
fn header_holds_order_and_offset() {
    let header = TIFFHeader { byte_order: TIFFByteOrder::BigEndian, ifd_offset: 8 };
    assert_eq!(header.byte_order, TIFFByteOrder::BigEndian);
    assert_eq!(header.ifd_offset, 8);
}

#[test]
fn ifd_sizes() {
    assert_eq!(IFD::get_image_length(), 3);
    assert_eq!(IFD::get_image_width(), 3);
    assert_eq!(IFD::get_bytes_per_sample(), 3);
}
