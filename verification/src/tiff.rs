use vstd::prelude::*;

use crate::lowlevel::{ImageType, TIFFByteOrder, TIFFTag, TagType, TagValue, LONG};

verus! {

/// The basic TIFF struct. This includes the header (specifying byte order and IFD offsets) as
/// well as all the image file directories (IFDs) plus image data.
///
/// The image data has a size of width * length * bytes_per_sample.
#[derive(Debug, PartialEq, Eq)]
pub struct TIFF {
    pub ifds: Vec<IFD>,
    // This is width * length * bytes_per_sample.
    pub image_data: Vec<Vec<Vec<usize>>>,
}

/// The header of a TIFF file. This comes first in any TIFF file and contains the byte order
/// as well as the offset to the IFD table.
#[derive(Debug, PartialEq, Eq)]
pub struct TIFFHeader {
    pub byte_order: TIFFByteOrder,
    pub ifd_offset: LONG,
}

/// An image file directory (IFD) within this TIFF. It contains the number of individual IFD entries
/// as well as a Vec with all the entries.
#[derive(Debug, PartialEq, Eq)]
pub struct IFD {
    pub count: u16,
    pub entries: Vec<IFDEntry>,
}

/// A single entry within an image file directory (IDF). It consists of a tag, a type, and several
/// tag values.
#[derive(Debug, PartialEq, Eq)]
pub struct IFDEntry {
    pub tag: TIFFTag,
    pub tpe: TagType,
    pub count: LONG,
    pub value_offset: LONG,
    pub value: Vec<TagValue>,
}

/// Implementations for the IFD struct.
impl IFD {
    pub fn get_image_length() -> (length: usize)
        ensures
            length == 3,
    {
        3
    }

    pub fn get_image_width() -> (width: usize)
        ensures
            width == 3,
    {
        3
    }

    pub fn get_bytes_per_sample() -> (bytes: usize)
        ensures
            bytes == 3,
    {
        3
    }
}

/// Decodes an u16 value into a TIFFTag.
pub fn decode_tag(value: u16) -> (tag: Option<TIFFTag>)
    ensures
        match tag {
            Some(tag) => tag.spec_code() == value,
            None => forall|tag: TIFFTag| #[trigger] tag.spec_code() != value,
        },
        tag == TIFFTag::spec_from_u16(value),
{
    TIFFTag::from_u16(value)
}

/// Decodes an u16 value into a TagType.
pub fn decode_tag_type(tpe: u16) -> (tag_type: Option<TagType>)
    ensures
        match tag_type {
            Some(tag_type) => tag_type.spec_code() == tpe,
            None => forall|tag_type: TagType| #[trigger] tag_type.spec_code() != tpe,
        },
        tag_type == TagType::spec_from_u16(tpe),
{
    TagType::from_u16(tpe)
}

/// The tags that a grayscale image must have.
pub open spec fn grayscale_tags() -> Seq<TIFFTag> {
    seq![
        TIFFTag::ImageWidthTag,
        TIFFTag::ImageLengthTag,
        TIFFTag::BitsPerSampleTag,
        TIFFTag::CompressionTag,
        TIFFTag::PhotometricInterpretationTag,
        TIFFTag::StripOffsetsTag,
        TIFFTag::RowsPerStripTag,
        TIFFTag::StripByteCountsTag,
        TIFFTag::XResolutionTag,
        TIFFTag::YResolutionTag,
        TIFFTag::ResolutionUnitTag,
    ]
}

/// The tags that an RGB image must have.
pub open spec fn rgb_image_tags() -> Seq<TIFFTag> {
    seq![
        TIFFTag::ImageWidthTag,
        TIFFTag::ImageLengthTag,
        TIFFTag::BitsPerSampleTag,
        TIFFTag::CompressionTag,
        TIFFTag::PhotometricInterpretationTag,
        TIFFTag::StripOffsetsTag,
        TIFFTag::SamplesPerPixelTag,
        TIFFTag::RowsPerStripTag,
        TIFFTag::StripByteCountsTag,
        TIFFTag::XResolutionTag,
        TIFFTag::YResolutionTag,
        TIFFTag::ResolutionUnitTag,
    ]
}

/// Whether `tag` is among `tags`.
fn has_tag(tags: &Vec<TIFFTag>, tag: TIFFTag) -> (found: bool)
    ensures
        found == tags@.contains(tag),
{
    let mut i: usize = 0;
    while i < tags.len()
        invariant
            i <= tags.len(),
            forall|k: int| 0 <= k < i ==> tags[k] != tag,
        decreases tags.len() - i,
    {
        if tags[i] == tag {
            return true;
        }
        i += 1;
    }
    false
}

/// The tags of `tags` that are not among `others`, each once, in the order
/// in which `tags` first has them.
fn difference(tags: &Vec<TIFFTag>, others: &Vec<TIFFTag>) -> (rest: Vec<TIFFTag>)
    ensures
        rest@.no_duplicates(),
        forall|tag: TIFFTag| rest@.contains(tag) <==> tags@.contains(tag) && !others@.contains(tag),
{
    let mut rest: Vec<TIFFTag> = Vec::new();
    let mut i: usize = 0;
    while i < tags.len()
        invariant
            i <= tags.len(),
            rest@.no_duplicates(),
            forall|tag: TIFFTag|
                rest@.contains(tag) <==> tags@.take(i as int).contains(tag) && !others@.contains(tag),
        decreases tags.len() - i,
    {
        let tag = tags[i];
        let ghost before = rest@;
        assert(tags@.take(i + 1) == tags@.take(i as int).push(tag));
        assert forall|other: TIFFTag|
            tags@.take(i + 1).contains(other) <==> tags@.take(i as int).contains(other) || other == tag by {
            let shorter = tags@.take(i as int);
            if shorter.push(tag).contains(other) {
                let k = choose|k: int| 0 <= k < shorter.push(tag).len() && shorter.push(tag)[k] == other;
                if k < shorter.len() {
                    assert(shorter[k] == other);
                }
            }
            if shorter.contains(other) {
                let k = choose|k: int| 0 <= k < shorter.len() && shorter[k] == other;
                assert(shorter.push(tag)[k] == other);
            }
            if other == tag {
                assert(shorter.push(tag)[shorter.len() as int] == other);
            }
        }
        if !has_tag(others, tag) && !has_tag(&rest, tag) {
            rest.push(tag);
            assert forall|other: TIFFTag| rest@.contains(other) <==> before.contains(other) || other == tag by {
                if rest@.contains(other) {
                    let k = choose|k: int| 0 <= k < rest@.len() && rest@[k] == other;
                    if k < before.len() {
                        assert(before[k] == other);
                    }
                }
                if before.contains(other) {
                    let k = choose|k: int| 0 <= k < before.len() && before[k] == other;
                    assert(rest@[k] == other);
                }
                if other == tag {
                    assert(rest@[before.len() as int] == other);
                }
            }
        }
        assert forall|other: TIFFTag|
            rest@.contains(other) <==> tags@.take(i + 1).contains(other) && !others@.contains(other) by {
            if other != tag {
                assert(rest@.contains(other) <==> before.contains(other));
            }
        }
        i += 1;
    }
    assert(tags@.take(tags.len() as int) == tags@);
    rest
}

/// Validation functions to make sure all the required tags are existing for a certain GeoTiff
/// image type (e.g., grayscale or RGB image).
///
/// For an RGB image these are the tags that it must have beyond those of a
/// grayscale image; for the other types nothing is said.
pub fn validate_required_tags_for(typ: &ImageType) -> (required: Option<Vec<TIFFTag>>)
    ensures
        *typ != ImageType::RGB ==> required is None,
        *typ == ImageType::RGB ==> required is Some && required->0@.no_duplicates() && (forall|tag: TIFFTag|
            required->0@.contains(tag) <==> rgb_image_tags().contains(tag) && !grayscale_tags().contains(tag)),
        *typ == ImageType::RGB ==> required->0@ == seq![TIFFTag::SamplesPerPixelTag],
{
    let required_grayscale_tags: Vec<TIFFTag> = vec![
        TIFFTag::ImageWidthTag,
        TIFFTag::ImageLengthTag,
        TIFFTag::BitsPerSampleTag,
        TIFFTag::CompressionTag,
        TIFFTag::PhotometricInterpretationTag,
        TIFFTag::StripOffsetsTag,
        TIFFTag::RowsPerStripTag,
        TIFFTag::StripByteCountsTag,
        TIFFTag::XResolutionTag,
        TIFFTag::YResolutionTag,
        TIFFTag::ResolutionUnitTag,
    ];
    let required_rgb_image_tags: Vec<TIFFTag> = vec![
        TIFFTag::ImageWidthTag,
        TIFFTag::ImageLengthTag,
        TIFFTag::BitsPerSampleTag,
        TIFFTag::CompressionTag,
        TIFFTag::PhotometricInterpretationTag,
        TIFFTag::StripOffsetsTag,
        TIFFTag::SamplesPerPixelTag,
        TIFFTag::RowsPerStripTag,
        TIFFTag::StripByteCountsTag,
        TIFFTag::XResolutionTag,
        TIFFTag::YResolutionTag,
        TIFFTag::ResolutionUnitTag,
    ];
    assert(required_grayscale_tags@ =~= grayscale_tags());
    assert(required_rgb_image_tags@ =~= rgb_image_tags());
    match *typ {
        ImageType::Bilevel => None,
        ImageType::Grayscale => None,
        ImageType::PaletteColour => None,
        ImageType::RGB => {
            let required = difference(&required_rgb_image_tags, &required_grayscale_tags);
            proof {
                lemma_only_samples_per_pixel(required@);
            }
            Some(required)
        },
        ImageType::YCbCr => None,
    }
}

/// The one tag that an RGB image must have and a grayscale image need not is
/// the number of samples per pixel.
proof fn lemma_only_samples_per_pixel(required: Seq<TIFFTag>)
    requires
        required.no_duplicates(),
        forall|tag: TIFFTag|
            required.contains(tag) <==> rgb_image_tags().contains(tag) && !grayscale_tags().contains(tag),
    ensures
        required == seq![TIFFTag::SamplesPerPixelTag],
{
    let rgb = rgb_image_tags();
    let gray = grayscale_tags();
    assert(rgb[6] == TIFFTag::SamplesPerPixelTag);
    assert(rgb.contains(TIFFTag::SamplesPerPixelTag));
    assert(!gray.contains(TIFFTag::SamplesPerPixelTag));
    assert(required.contains(TIFFTag::SamplesPerPixelTag));
    assert forall|i: int| 0 <= i < required.len() implies required[i] == TIFFTag::SamplesPerPixelTag by {
        let tag = required[i];
        assert(required.contains(tag));
        assert(rgb.contains(tag));
        let k = choose|k: int| 0 <= k < rgb.len() && rgb[k] == tag;
        if k != 6 {
            let j = if k < 6 {
                k
            } else {
                k - 1
            };
            assert(gray[j] == tag);
            assert(gray.contains(tag));
        }
    }
    if required.len() >= 2 {
        assert(required[0] == required[1]);
    }
    assert(required =~= seq![TIFFTag::SamplesPerPixelTag]);
}

} // verus!
