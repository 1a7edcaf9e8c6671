use vstd::prelude::*;

use miniz_oxide::inflate::{decompress_to_vec_zlib, DecompressError};

use crate::endian::{read_i16, read_i32, read_u16, read_u32, read_u64, spec_u16, spec_u32, spec_u64, to_signed};
use crate::lowlevel::{
    known_tiff_tag, spec_tag_size, tag_size, Compression, TIFFByteOrder, TIFFTag, TagType, TagValue,
};
use crate::tiff::{decode_tag, decode_tag_type, IFDEntry, IFD, TIFF};

verus! {

/// Why the bytes of a file could not be read as a TIFF.
#[derive(Clone, Copy, Debug, PartialEq, Eq, Structural)]
pub enum ReadError {
    /// The file ends before the header or the number of entries of the directory does.
    UnexpectedEof,
    /// The first two bytes name no byte order.
    InvalidByteOrder,
    /// The header does not hold the number 42.
    InvalidMagic,
    /// The file ends before an entry of the directory does.
    TruncatedEntry,
    /// An entry has a tag that is not known.
    InvalidTag { tag: u16 },
    /// An entry has a type that is not known.
    InvalidTagType { tpe: u16 },
    /// The file ends before the values of an entry do.
    TruncatedValue,
    /// An entry has values of a type whose values cannot be read.
    UnreadableValue { tpe: TagType },
    /// The directory has no compression tag.
    CompressionTagNotFound,
    /// The directory has no image length tag.
    ImageLengthNotFound,
    /// The directory has no image width tag.
    ImageWidthNotFound,
    /// The directory has no bits per sample tag.
    ImageDepthNotFound,
    /// The directory has no rows per strip tag.
    RowsPerStripNotFound,
    /// The directory has no strip offsets tag.
    StripOffsetsNotFound,
    /// The directory has no strip byte counts tag.
    StripByteCountsNotFound,
    /// The entry of a tag that the image data depends on holds no value.
    EmptyValue { tag: TIFFTag },
    /// The compression tag holds a number that stands for no compression.
    UnknownCompression { code: u16 },
    /// The image data is compressed in a way that cannot be undone here.
    CompressionNotSupported,
    /// A block of image data is not a zlib stream.
    InflateFailed,
    /// The file ends before a block of image data does.
    TruncatedBlock,
    /// A sample is not of 0, 1, 2, 4 or 8 bytes.
    UnsupportedDepth { depth: usize },
    /// The number of bytes of a block does not fit the machine.
    BlockTooLarge,
    /// The strips hold more samples than the image has pixels.
    TooManySamples,
}

/// The `n` bytes of `data` from `position` on, if `data` has them.
pub open spec fn bytes_at(data: Seq<u8>, position: int, n: int) -> Option<Seq<u8>> {
    if 0 <= position && 0 <= n && position + n <= data.len() {
        Some(data.subrange(position, position + n))
    } else {
        None
    }
}

/// The byte order that a file declares in its first two bytes.
pub open spec fn byte_order_of(data: Seq<u8>) -> Result<TIFFByteOrder, ReadError> {
    match bytes_at(data, 0, 2) {
        None => Err(ReadError::UnexpectedEof),
        Some(bytes) => if spec_u16(TIFFByteOrder::LittleEndian, bytes)
            == TIFFByteOrder::LittleEndian.spec_code() {
            Ok(TIFFByteOrder::LittleEndian)
        } else if spec_u16(TIFFByteOrder::LittleEndian, bytes) == TIFFByteOrder::BigEndian.spec_code() {
            Ok(TIFFByteOrder::BigEndian)
        } else {
            Err(ReadError::InvalidByteOrder)
        },
    }
}

/// What is wrong with the magic number of a file, which follows the byte
/// order, if anything is.
pub open spec fn magic_error(order: TIFFByteOrder, data: Seq<u8>) -> Option<ReadError> {
    match bytes_at(data, 2, 2) {
        None => Some(ReadError::UnexpectedEof),
        Some(bytes) => if spec_u16(order, bytes) == 42 {
            None
        } else {
            Some(ReadError::InvalidMagic)
        },
    }
}

/// The offset of the first directory of a file, which follows the magic number.
pub open spec fn ifd_offset_of(order: TIFFByteOrder, data: Seq<u8>) -> Result<u32, ReadError> {
    match bytes_at(data, 4, 4) {
        None => Err(ReadError::UnexpectedEof),
        Some(bytes) => Ok(spec_u32(order, bytes) as u32),
    }
}

/// The number that bytes of a sample hold in the given order. There are
/// samples of no byte, which hold 0, and of 1, 2, 4 and 8 bytes.
pub open spec fn sample_value(order: TIFFByteOrder, bytes: Seq<u8>) -> int {
    if bytes.len() == 1 {
        bytes[0] as int
    } else if bytes.len() == 2 {
        spec_u16(order, bytes)
    } else if bytes.len() == 4 {
        spec_u32(order, bytes)
    } else if bytes.len() == 8 {
        spec_u64(order, bytes)
    } else {
        0
    }
}

/// Whether a sample can have `depth` bytes.
pub open spec fn supported_depth(depth: int) -> bool {
    depth == 0 || depth == 1 || depth == 2 || depth == 4 || depth == 8
}

/// The text that `String::from_utf8_lossy` makes of bytes.
pub uninterp spec fn utf8_lossy(bytes: Seq<u8>) -> Seq<char>;

/// `String::from_utf8_lossy` of std: the text that the bytes encode in
/// UTF-8, with a replacement character for what encodes none. Bytes below
/// 128 are ASCII characters, which encode themselves.
#[verifier::external_body]
fn lossy_text(bytes: &[u8]) -> (text: String)
    ensures
        text@ == utf8_lossy(bytes@),
        (forall|i: int| 0 <= i < bytes.len() ==> bytes[i] < 128) ==> text@ == Seq::new(
            bytes@.len(),
            |i: int| bytes[i] as char,
        ),
{
    String::from_utf8_lossy(bytes).into_owned()
}

/// Whether `len` bytes hold a value of the given type that can be read.
pub open spec fn readable(tpe: TagType, len: int) -> bool {
    match tpe {
        TagType::BYTE | TagType::SBYTE => len >= 1,
        TagType::ASCII | TagType::UNDEFINED => true,
        TagType::SHORT | TagType::SSHORT => len >= 2,
        TagType::LONG | TagType::SLONG | TagType::FLOAT => len >= 4,
        TagType::RATIONAL | TagType::SRATIONAL => len / 2 >= 4,
        TagType::DOUBLE => len >= 8,
        TagType::IFD | TagType::LONG8 | TagType::SLONG8 | TagType::IFD8 => false,
    }
}

/// Whether `value` is the value of the given type that `bytes` hold in the
/// given order. A rational is held half by half, a floating point number by
/// the bits of its encoding, and a value of undefined type reads as 0.
pub open spec fn holds_value(value: TagValue, order: TIFFByteOrder, bytes: Seq<u8>, tpe: TagType) -> bool {
    let half = (bytes.len() / 2) as int;
    match tpe {
        TagType::BYTE => value == TagValue::ByteValue(bytes[0]),
        TagType::ASCII => value matches TagValue::AsciiValue(text) && text@ == utf8_lossy(bytes),
        TagType::SHORT => value == TagValue::ShortValue(spec_u16(order, bytes) as u16),
        TagType::LONG => value == TagValue::LongValue(spec_u32(order, bytes) as u32),
        TagType::RATIONAL => value == TagValue::RationalValue(
            (spec_u32(order, bytes.take(half)) as u32, spec_u32(order, bytes.skip(half)) as u32),
        ),
        TagType::SBYTE => value == TagValue::SignedByteValue(to_signed(bytes[0] as int, 0x100) as i8),
        TagType::SSHORT => value == TagValue::SignedShortValue(
            to_signed(spec_u16(order, bytes), 0x1_0000) as i16,
        ),
        TagType::SLONG => value == TagValue::SignedLongValue(
            to_signed(spec_u32(order, bytes), 0x1_0000_0000) as i32,
        ),
        TagType::SRATIONAL => value == TagValue::SignedRationalValue(
            (
                to_signed(spec_u32(order, bytes.take(half)), 0x1_0000_0000) as i32,
                to_signed(spec_u32(order, bytes.skip(half)), 0x1_0000_0000) as i32,
            ),
        ),
        TagType::FLOAT => value == TagValue::FloatValue(spec_u32(order, bytes) as u32),
        TagType::DOUBLE => value == TagValue::DoubleValue(spec_u64(order, bytes) as u64),
        TagType::UNDEFINED => value == TagValue::ByteValue(0),
        TagType::IFD | TagType::LONG8 | TagType::SLONG8 | TagType::IFD8 => false,
    }
}

/// The error with which miniz_oxide refuses what is no zlib stream.
#[verifier::external_type_specification]
#[verifier::external_body]
pub struct ExDecompressError(DecompressError);

/// The bytes that `decompress_to_vec_zlib` of miniz_oxide makes of a zlib
/// stream, and none for bytes that it refuses.
pub uninterp spec fn zlib_inflated(input: Seq<u8>) -> Option<Seq<u8>>;

/// `decompress_to_vec_zlib` of miniz_oxide: the bytes that the zlib stream
/// `input` was deflated from, or the error for an `input` that is none.
#[verifier::external_body]
fn inflate(input: &[u8]) -> (inflated: Result<Vec<u8>, DecompressError>)
    ensures
        match inflated {
            Ok(bytes) => zlib_inflated(input@) == Some(bytes@),
            Err(_) => zlib_inflated(input@) is None,
        },
{
    decompress_to_vec_zlib(input)
}

/// `n` bytes that are 0.
pub open spec fn zeros(n: int) -> Seq<u8> {
    Seq::new(n as nat, |i: int| 0u8)
}

/// The bytes of the `i`-th sample of a block of samples of `depth` bytes.
pub open spec fn sample_bytes(block: Seq<u8>, depth: int, i: int) -> Seq<u8> {
    block.subrange(i * depth, i * depth + depth)
}

/// The first `block_size` samples of `depth` bytes of a block.
pub open spec fn block_samples(order: TIFFByteOrder, block: Seq<u8>, block_size: int, depth: int) -> Seq<
    usize,
> {
    Seq::new(block_size as nat, |i: int| sample_value(order, sample_bytes(block, depth, i)) as usize)
}

/// The samples of a block of bytes: an error for samples of a depth that
/// cannot be read, unless the block has no sample at all.
pub open spec fn samples_of(order: TIFFByteOrder, block: Seq<u8>, block_size: int, depth: int) -> Result<
    Seq<usize>,
    ReadError,
> {
    if block_size > 0 && !supported_depth(depth) {
        Err(ReadError::UnsupportedDepth { depth: depth as usize })
    } else {
        Ok(block_samples(order, block, block_size, depth))
    }
}

/// The samples of a block whose bytes were deflated. The samples are read
/// from as many zero bytes as the samples take, followed by the inflated
/// bytes.
pub open spec fn inflated_samples(
    order: TIFFByteOrder,
    inflated: Option<Seq<u8>>,
    block_size: int,
    depth: int,
) -> Result<Seq<usize>, ReadError> {
    match inflated {
        None => Err(ReadError::InflateFailed),
        Some(bytes) => samples_of(order, zeros(block_size * depth) + bytes, block_size, depth),
    }
}

/// The samples of the block of `byte_count` bytes at `offset`.
///
/// A block that is not compressed holds its samples as they are; if it has
/// another number of bytes than its samples take, it is not read and its
/// samples are 0.
pub open spec fn block_result(
    order: TIFFByteOrder,
    data: Seq<u8>,
    offset: u32,
    byte_count: u32,
    block_size: int,
    depth: int,
    compression: Compression,
) -> Result<Seq<usize>, ReadError> {
    if block_size * depth > usize::MAX {
        Err(ReadError::BlockTooLarge)
    } else {
        match compression {
            Compression::Uncompressed => if block_size * depth == byte_count {
                match bytes_at(data, offset as int, byte_count as int) {
                    None => Err(ReadError::TruncatedBlock),
                    Some(block) => samples_of(order, block, block_size, depth),
                }
            } else {
                samples_of(order, zeros(block_size * depth), block_size, depth)
            },
            Compression::AdobeDeflate => match bytes_at(data, offset as int, byte_count as int) {
                None => Err(ReadError::TruncatedBlock),
                Some(compressed) => inflated_samples(order, zlib_inflated(compressed), block_size, depth),
            },
            _ => Err(ReadError::CompressionNotSupported),
        }
    }
}

/// The four numbers of an entry of a directory.
pub struct RawEntry {
    pub tag: u16,
    pub tpe: u16,
    pub count: u32,
    pub value_offset: u32,
}

/// The position of an entry of a directory, given that of the first one:
/// an entry has 12 bytes.
pub open spec fn entry_position(first_entry: int, entry_number: int) -> int {
    first_entry + 12 * entry_number
}

/// The numbers of the entry at `position`: its tag and its type, of two
/// bytes each, the number of its values and the offset of its values, of
/// four bytes each.
pub open spec fn raw_entry(order: TIFFByteOrder, data: Seq<u8>, position: int) -> Option<RawEntry> {
    match bytes_at(data, position, 12) {
        None => None,
        Some(bytes) => Some(
            RawEntry {
                tag: spec_u16(order, bytes.subrange(0, 2)) as u16,
                tpe: spec_u16(order, bytes.subrange(2, 4)) as u16,
                count: spec_u32(order, bytes.subrange(4, 8)) as u32,
                value_offset: spec_u32(order, bytes.subrange(8, 12)) as u32,
            },
        ),
    }
}

/// Where the values of an entry begin: in the last four bytes of the entry
/// where they fit into them, else at the offset that these bytes hold.
pub open spec fn values_start(position: int, raw: RawEntry, size: int) -> int {
    if raw.count * size <= 4 {
        position + 8
    } else {
        raw.value_offset as int
    }
}

/// The bytes of the `j`-th of the values of `size` bytes from `start` on.
pub open spec fn value_bytes(data: Seq<u8>, start: int, size: int, j: int) -> Option<Seq<u8>> {
    bytes_at(data, start + j * size, size)
}

/// What is wrong with the `j`-th value of an entry, if anything is.
pub open spec fn value_error(data: Seq<u8>, start: int, size: int, tpe: TagType, j: int) -> Option<
    ReadError,
> {
    if value_bytes(data, start, size, j) is None {
        Some(ReadError::TruncatedValue)
    } else if !readable(tpe, size) {
        Some(ReadError::UnreadableValue { tpe })
    } else {
        None
    }
}

/// What is wrong with the first of the first `n` values of an entry that is
/// not in order, if one of them is not.
pub open spec fn first_value_error(data: Seq<u8>, start: int, size: int, tpe: TagType, n: int) -> Option<
    ReadError,
>
    decreases n,
{
    if n <= 0 {
        None
    } else {
        match first_value_error(data, start, size, tpe, n - 1) {
            Some(error) => Some(error),
            None => value_error(data, start, size, tpe, n - 1),
        }
    }
}

/// Why the entry at `position` cannot be read, if it cannot.
pub open spec fn tag_error(order: TIFFByteOrder, data: Seq<u8>, position: int) -> Option<ReadError> {
    match raw_entry(order, data, position) {
        None => Some(ReadError::TruncatedEntry),
        Some(raw) => if !known_tiff_tag(raw.tag) {
            Some(ReadError::InvalidTag { tag: raw.tag })
        } else {
            match TagType::spec_from_u16(raw.tpe) {
                None => Some(ReadError::InvalidTagType { tpe: raw.tpe }),
                Some(tpe) => first_value_error(
                    data,
                    values_start(position, raw, spec_tag_size(tpe) as int),
                    spec_tag_size(tpe) as int,
                    tpe,
                    raw.count as int,
                ),
            }
        },
    }
}

/// Whether `entry` is the entry at `position`, with all its values.
pub open spec fn entry_matches(entry: IFDEntry, order: TIFFByteOrder, data: Seq<u8>, position: int) -> bool {
    let raw = raw_entry(order, data, position)->0;
    let size = spec_tag_size(entry.tpe) as int;
    let start = values_start(position, raw, size);
    &&& raw_entry(order, data, position) is Some
    &&& entry.tag.spec_code() == raw.tag
    &&& entry.tpe.spec_code() == raw.tpe
    &&& entry.count == raw.count
    &&& entry.value_offset == raw.value_offset
    &&& entry.value.len() == raw.count
    &&& forall|j: int|
        0 <= j < raw.count ==> value_bytes(data, start, size, j) is Some && holds_value(
            #[trigger] entry.value[j],
            order,
            value_bytes(data, start, size, j)->0,
            entry.tpe,
        )
}

/// Whether a directory is read on without the entry that has this error.
pub open spec fn skipped(error: ReadError) -> bool {
    error is TruncatedEntry || error is InvalidTag
}

/// The error that ends the reading of the first `n` entries of a directory,
/// if one does: the first that is none of those with which an entry is left out.
pub open spec fn first_fatal_error(order: TIFFByteOrder, data: Seq<u8>, first_entry: int, n: int) -> Option<
    ReadError,
>
    decreases n,
{
    if n <= 0 {
        None
    } else {
        match first_fatal_error(order, data, first_entry, n - 1) {
            Some(error) => Some(error),
            None => match tag_error(order, data, entry_position(first_entry, n - 1)) {
                Some(error) => if skipped(error) {
                    None
                } else {
                    Some(error)
                },
                None => None,
            },
        }
    }
}

/// The numbers of those of the first `n` entries of a directory that can be read.
pub open spec fn kept_entries(order: TIFFByteOrder, data: Seq<u8>, first_entry: int, n: int) -> Seq<int>
    decreases n,
{
    if n <= 0 {
        Seq::empty()
    } else if tag_error(order, data, entry_position(first_entry, n - 1)) is None {
        kept_entries(order, data, first_entry, n - 1).push(n - 1)
    } else {
        kept_entries(order, data, first_entry, n - 1)
    }
}

/// The number of entries that the directory at `ifd_offset` declares.
pub open spec fn entry_count_of(order: TIFFByteOrder, data: Seq<u8>, ifd_offset: int) -> Option<u16> {
    match bytes_at(data, ifd_offset, 2) {
        None => None,
        Some(bytes) => Some(spec_u16(order, bytes) as u16),
    }
}

/// Whether `result` is what the directory at `ifd_offset` reads as: it has
/// the entries that can be read, in their order.
pub open spec fn reads_as_ifd(result: Result<IFD, ReadError>, order: TIFFByteOrder, data: Seq<u8>, ifd_offset: int) -> bool {
    let first_entry = ifd_offset + 2;
    match entry_count_of(order, data, ifd_offset) {
        None => result == Err::<IFD, ReadError>(ReadError::UnexpectedEof),
        Some(count) => match result {
            Err(error) => first_fatal_error(order, data, first_entry, count as int) == Some(error),
            Ok(ifd) => {
                let kept = kept_entries(order, data, first_entry, count as int);
                &&& first_fatal_error(order, data, first_entry, count as int) is None
                &&& ifd.count == count
                &&& ifd.entries.len() == kept.len()
                &&& forall|k: int|
                    0 <= k < kept.len() ==> entry_matches(
                        #[trigger] ifd.entries[k],
                        order,
                        data,
                        entry_position(first_entry, kept[k]),
                    )
            },
        },
    }
}

/// The first of the entries that has the given tag, if one has it.
pub open spec fn entry_with(entries: Seq<IFDEntry>, tag: TIFFTag) -> Option<IFDEntry>
    decreases entries.len(),
{
    if entries.len() == 0 {
        None
    } else if entries[0].tag == tag {
        Some(entries[0])
    } else {
        entry_with(entries.skip(1), tag)
    }
}

/// The first value of an entry where it is a short number, and 0 where it
/// is a value of another type. An entry without a value has none.
pub open spec fn short_or_zero(entry: IFDEntry) -> Result<u16, ReadError> {
    if entry.value.len() == 0 {
        Err(ReadError::EmptyValue { tag: entry.tag })
    } else {
        match entry.value[0] {
            TagValue::ShortValue(v) => Ok(v),
            _ => Ok(0),
        }
    }
}

/// Those of the values that are long numbers, in their order.
pub open spec fn long_values(values: Seq<TagValue>) -> Seq<u32>
    decreases values.len(),
{
    if values.len() == 0 {
        Seq::empty()
    } else {
        match values.last() {
            TagValue::LongValue(v) => long_values(values.drop_last()).push(v),
            _ => long_values(values.drop_last()),
        }
    }
}

/// How the samples of an image lie in its file, strip by strip.
#[derive(Debug)]
pub struct StripLayout {
    /// The number that stands for the compression of the strips.
    pub compression: u16,
    /// The number of rows of the image.
    pub image_length: u16,
    /// The number of pixels of a row.
    pub image_width: u16,
    /// The number of bytes of a sample.
    pub image_depth: u16,
    /// The number of rows of a strip.
    pub rows_per_strip: u16,
    /// The offset of each strip.
    pub offsets: Vec<u32>,
    /// The number of bytes of each strip.
    pub byte_counts: Vec<u32>,
}

/// What a `StripLayout` holds, as mathematical values.
pub struct StripLayoutView {
    pub compression: u16,
    pub image_length: u16,
    pub image_width: u16,
    pub image_depth: u16,
    pub rows_per_strip: u16,
    pub offsets: Seq<u32>,
    pub byte_counts: Seq<u32>,
}

impl View for StripLayout {
    type V = StripLayoutView;

    open spec fn view(&self) -> StripLayoutView {
        StripLayoutView {
            compression: self.compression,
            image_length: self.image_length,
            image_width: self.image_width,
            image_depth: self.image_depth,
            rows_per_strip: self.rows_per_strip,
            offsets: self.offsets@,
            byte_counts: self.byte_counts@,
        }
    }
}

impl StripLayoutView {
    /// The number of strips: each has an offset and a number of bytes.
    pub open spec fn strips(self) -> int {
        if self.offsets.len() <= self.byte_counts.len() {
            self.offsets.len() as int
        } else {
            self.byte_counts.len() as int
        }
    }

    /// The number of pixels of the image.
    pub open spec fn pixels(self) -> int {
        self.image_length * self.image_width
    }

    /// The number of samples of a strip.
    pub open spec fn block_size(self) -> int {
        self.rows_per_strip * self.image_width
    }
}

/// The value of the first entry with the given tag as a short number, or
/// `missing` where no entry has the tag.
pub open spec fn short_of_tag(entries: Seq<IFDEntry>, tag: TIFFTag, missing: ReadError) -> Result<
    u16,
    ReadError,
> {
    match entry_with(entries, tag) {
        None => Err(missing),
        Some(entry) => short_or_zero(entry),
    }
}

/// What is wrong with the tags that the image data depends on, if anything
/// is. The five tags that describe the image are looked up before the values
/// of the last three of them are read, and the three tags of the strips
/// before the number of rows of a strip is read.
pub open spec fn layout_error(entries: Seq<IFDEntry>) -> Option<ReadError> {
    if short_of_tag(entries, TIFFTag::CompressionTag, ReadError::CompressionTagNotFound) is Err {
        Some(short_of_tag(entries, TIFFTag::CompressionTag, ReadError::CompressionTagNotFound)->Err_0)
    } else if entry_with(entries, TIFFTag::ImageLengthTag) is None {
        Some(ReadError::ImageLengthNotFound)
    } else if entry_with(entries, TIFFTag::ImageWidthTag) is None {
        Some(ReadError::ImageWidthNotFound)
    } else if entry_with(entries, TIFFTag::BitsPerSampleTag) is None {
        Some(ReadError::ImageDepthNotFound)
    } else if short_or_zero(entry_with(entries, TIFFTag::ImageLengthTag)->0) is Err {
        Some(short_or_zero(entry_with(entries, TIFFTag::ImageLengthTag)->0)->Err_0)
    } else if short_or_zero(entry_with(entries, TIFFTag::ImageWidthTag)->0) is Err {
        Some(short_or_zero(entry_with(entries, TIFFTag::ImageWidthTag)->0)->Err_0)
    } else if short_or_zero(entry_with(entries, TIFFTag::BitsPerSampleTag)->0) is Err {
        Some(short_or_zero(entry_with(entries, TIFFTag::BitsPerSampleTag)->0)->Err_0)
    } else if entry_with(entries, TIFFTag::RowsPerStripTag) is None {
        Some(ReadError::RowsPerStripNotFound)
    } else if entry_with(entries, TIFFTag::StripOffsetsTag) is None {
        Some(ReadError::StripOffsetsNotFound)
    } else if entry_with(entries, TIFFTag::StripByteCountsTag) is None {
        Some(ReadError::StripByteCountsNotFound)
    } else if short_or_zero(entry_with(entries, TIFFTag::RowsPerStripTag)->0) is Err {
        Some(short_or_zero(entry_with(entries, TIFFTag::RowsPerStripTag)->0)->Err_0)
    } else {
        None
    }
}

/// How the samples of the image of a directory lie in its file, given that
/// the tags that say so are in order. A sample has an eighth as many bytes
/// as it has bits.
pub open spec fn layout_of(entries: Seq<IFDEntry>) -> StripLayoutView {
    StripLayoutView {
        compression: short_or_zero(entry_with(entries, TIFFTag::CompressionTag)->0)->Ok_0,
        image_length: short_or_zero(entry_with(entries, TIFFTag::ImageLengthTag)->0)->Ok_0,
        image_width: short_or_zero(entry_with(entries, TIFFTag::ImageWidthTag)->0)->Ok_0,
        image_depth: (short_or_zero(entry_with(entries, TIFFTag::BitsPerSampleTag)->0)->Ok_0 / 8) as u16,
        rows_per_strip: short_or_zero(entry_with(entries, TIFFTag::RowsPerStripTag)->0)->Ok_0,
        offsets: long_values(entry_with(entries, TIFFTag::StripOffsetsTag)->0.value@),
        byte_counts: long_values(entry_with(entries, TIFFTag::StripByteCountsTag)->0.value@),
    }
}

/// The samples of the `k`-th strip.
pub open spec fn strip_result(order: TIFFByteOrder, data: Seq<u8>, layout: StripLayoutView, k: int) -> Result<
    Seq<usize>,
    ReadError,
> {
    match Compression::spec_from_u16(layout.compression) {
        None => Err(ReadError::UnknownCompression { code: layout.compression }),
        Some(compression) => block_result(
            order,
            data,
            layout.offsets[k],
            layout.byte_counts[k],
            layout.block_size(),
            layout.image_depth as int,
            compression,
        ),
    }
}

/// The samples of the first `k` strips, one strip after the other. They
/// must not be more than the image has pixels.
pub open spec fn strips_samples(order: TIFFByteOrder, data: Seq<u8>, layout: StripLayoutView, k: int) -> Result<
    Seq<usize>,
    ReadError,
>
    decreases k,
{
    if k <= 0 {
        Ok(Seq::empty())
    } else {
        match strips_samples(order, data, layout, k - 1) {
            Err(error) => Err(error),
            Ok(before) => match strip_result(order, data, layout, k - 1) {
                Err(error) => Err(error),
                Ok(strip) => if before.len() + strip.len() > layout.pixels() {
                    Err(ReadError::TooManySamples)
                } else {
                    Ok(before + strip)
                },
            },
        }
    }
}

/// The sample of the pixel in the given row and column of an image whose
/// samples are given row by row. A pixel that the samples do not reach has 0.
pub open spec fn pixel_sample(samples: Seq<usize>, width: int, row: int, column: int) -> usize {
    if row * width + column < samples.len() {
        samples[row * width + column]
    } else {
        0
    }
}

/// Whether a row of an image holds the given row of the given samples, one
/// sample to a pixel.
pub open spec fn is_row_of(pixels: Seq<Vec<usize>>, samples: Seq<usize>, width: int, row: int) -> bool {
    &&& pixels.len() == width
    &&& forall|column: int|
        0 <= column < width ==> (#[trigger] pixels[column])@ == seq![
            pixel_sample(samples, width, row, column),
        ]
}

/// Whether an image of `length` rows of `width` pixels holds the given
/// samples, row by row, one sample to a pixel.
pub open spec fn is_image_of(image: Seq<Vec<Vec<usize>>>, samples: Seq<usize>, length: int, width: int) -> bool {
    &&& image.len() == length
    &&& forall|row: int| 0 <= row < length ==> is_row_of((#[trigger] image[row])@, samples, width, row)
}

/// Whether `result` is what the image data of a directory reads as.
pub open spec fn reads_as_image(
    result: Result<Vec<Vec<Vec<usize>>>, ReadError>,
    order: TIFFByteOrder,
    data: Seq<u8>,
    ifd: IFD,
) -> bool {
    let layout = layout_of(ifd.entries@);
    match layout_error(ifd.entries@) {
        Some(error) => result == Err::<Vec<Vec<Vec<usize>>>, ReadError>(error),
        None => match strips_samples(order, data, layout, layout.strips()) {
            Err(error) => result == Err::<Vec<Vec<Vec<usize>>>, ReadError>(error),
            Ok(samples) => result is Ok && is_image_of(
                result->Ok_0@,
                samples,
                layout.image_length as int,
                layout.image_width as int,
            ),
        },
    }
}

/// Whether `result` is what a file reads as: its header names the byte
/// order and the place of the directory, the directory has the entries that
/// can be read, and the image data is that of the directory.
pub open spec fn reads_as_tiff(result: Result<Box<TIFF>, ReadError>, data: Seq<u8>) -> bool {
    match byte_order_of(data) {
        Err(error) => result == Err::<Box<TIFF>, ReadError>(error),
        Ok(order) => reads_in_order(result, order, data),
    }
}

/// Whether `result` is what a file of the given byte order reads as.
pub open spec fn reads_in_order(result: Result<Box<TIFF>, ReadError>, order: TIFFByteOrder, data: Seq<u8>) -> bool {
    match magic_error(order, data) {
        Some(error) => result == Err::<Box<TIFF>, ReadError>(error),
        None => match ifd_offset_of(order, data) {
            Err(error) => result == Err::<Box<TIFF>, ReadError>(error),
            Ok(offset) => match result {
                Ok(tiff) => {
                    &&& tiff.ifds.len() == 1
                    &&& reads_as_ifd(Ok(tiff.ifds[0]), order, data, offset as int)
                    &&& reads_as_image(Ok(tiff.image_data), order, data, tiff.ifds[0])
                },
                Err(error) => {
                    ||| reads_as_ifd(Err(error), order, data, offset as int)
                    ||| exists|ifd: IFD|
                        reads_as_ifd(Ok(ifd), order, data, offset as int) && reads_as_image(
                            Err(error),
                            order,
                            data,
                            ifd,
                        )
                },
            },
        },
    }
}

/// The TIFF reader class that encapsulates all functionality related to reading `.tiff` files.
/// In particular, this includes reading the TIFF header, the image file directories (IDF), and
/// the plain data.
pub struct TIFFReader;

impl TIFFReader {
    /// Helper function to read the byte order, one of `LittleEndian` or `BigEndian`.
    pub fn read_byte_order(&self, data: &[u8]) -> (order: Result<TIFFByteOrder, ReadError>)
        ensures
            order == byte_order_of(data@),
    {
        // Bytes 0-1: "II" or "MM"
        // Read and validate ByteOrder
        let bytes = match self.read_n(data, 0, 2) {
            Some(bytes) => bytes,
            None => {
                return Err(ReadError::UnexpectedEof);
            },
        };
        match TIFFByteOrder::from_u16(read_u16(TIFFByteOrder::LittleEndian, bytes)) {
            Some(TIFFByteOrder::LittleEndian) => Ok(TIFFByteOrder::LittleEndian),
            Some(TIFFByteOrder::BigEndian) => Ok(TIFFByteOrder::BigEndian),
            None => Err(ReadError::InvalidByteOrder),
        }
    }

    /// Reads the magic number, i.e., 42.
    pub fn read_magic(&self, order: TIFFByteOrder, data: &[u8]) -> (result: Result<(), ReadError>)
        ensures
            match result {
                Ok(_) => magic_error(order, data@) is None,
                Err(error) => magic_error(order, data@) == Some(error),
            },
    {
        // Bytes 2-3: 0042
        // Read and validate HeaderMagic
        let bytes = match self.read_n(data, 2, 2) {
            Some(bytes) => bytes,
            None => {
                return Err(ReadError::UnexpectedEof);
            },
        };
        match read_u16(order, bytes) {
            42 => Ok(()),
            _ => Err(ReadError::InvalidMagic),
        }
    }

    /// Reads the IFD offset. The first IFD is then read from this position.
    pub fn read_ifd_offset(&self, order: TIFFByteOrder, data: &[u8]) -> (offset: Result<u32, ReadError>)
        ensures
            offset == ifd_offset_of(order, data@),
    {
        // Bytes 4-7: offset
        // Offset from start of file to first IFD
        match self.read_n(data, 4, 4) {
            Some(bytes) => Ok(read_u32(order, bytes)),
            None => Err(ReadError::UnexpectedEof),
        }
    }

    /// Reads an IFD.
    ///
    /// This starts by reading the number of entries, and then the tags within each entry.
    /// An entry that the file ends in, or whose tag is not known, is left out.
    #[allow(non_snake_case)]
    pub fn read_IFD(&self, order: TIFFByteOrder, data: &[u8], ifd_offset: u32) -> (ifd: Result<IFD, ReadError>)
        ensures
            reads_as_ifd(ifd, order, data@, ifd_offset as int),
    {
        // 2 byte count of IFD entries
        let entry_count = match self.read_n(data, ifd_offset as u64, 2) {
            Some(bytes) => read_u16(order, bytes),
            None => {
                return Err(ReadError::UnexpectedEof);
            },
        };
        let first_entry: u64 = ifd_offset as u64 + 2;
        let mut entries: Vec<IFDEntry> = Vec::new();
        let mut entry_number: usize = 0;
        while entry_number < entry_count as usize
            invariant
                entry_number <= entry_count,
                first_entry == ifd_offset + 2,
                entry_count_of(order, data@, ifd_offset as int) == Some(entry_count),
                first_fatal_error(order, data@, first_entry as int, entry_number as int) is None,
                entries.len() == kept_entries(order, data@, first_entry as int, entry_number as int).len(),
                forall|k: int|
                    0 <= k < entries.len() ==> entry_matches(
                        #[trigger] entries[k],
                        order,
                        data@,
                        entry_position(
                            first_entry as int,
                            kept_entries(order, data@, first_entry as int, entry_number as int)[k],
                        ),
                    ),
            decreases entry_count - entry_number,
        {
            let entry = self.read_tag(order, first_entry, entry_number, data);
            match entry {
                Ok(e) => entries.push(e),
                Err(ReadError::TruncatedEntry) => {},
                Err(ReadError::InvalidTag { tag }) => {},
                Err(error) => {
                    proof {
                        lemma_fatal_error_stays(
                            order,
                            data@,
                            first_entry as int,
                            entry_number as int,
                            entry_count as int,
                        );
                    }
                    return Err(error);
                },
            }
            entry_number += 1;
        }
        Ok(IFD { count: entry_count, entries })
    }

    /// Reads a single tag (given an IFD offset) into an IFDEntry.
    ///
    /// This consists of reading the tag ID, field type, number of values, offset to values. After
    /// decoding the tag and type, the values are retrieved.
    pub fn read_tag(&self, order: TIFFByteOrder, ifd_offset: u64, entry_number: usize, data: &[u8]) -> (entry:
        Result<IFDEntry, ReadError>)
        requires
            ifd_offset + 12 * entry_number + 12 <= u64::MAX,
        ensures
            match entry {
                Ok(entry) => {
                    &&& tag_error(order, data@, entry_position(ifd_offset as int, entry_number as int)) is None
                    &&& entry_matches(
                        entry,
                        order,
                        data@,
                        entry_position(ifd_offset as int, entry_number as int),
                    )
                },
                Err(error) => tag_error(order, data@, entry_position(ifd_offset as int, entry_number as int))
                    == Some(error),
            },
    {
        // Each tag is 12 bytes long.
        let position: u64 = ifd_offset + 12 * entry_number as u64;
        let bytes = match self.read_n(data, position, 12) {
            Some(bytes) => bytes,
            None => {
                return Err(ReadError::TruncatedEntry);
            },
        };
        // Bytes 0..1: u16 tag ID
        let tag_value = read_u16(order, &bytes[0..2]);

        // Bytes 2..3: u16 field Type
        let tpe_value = read_u16(order, &bytes[2..4]);

        // Bytes 4..7: u32 number of Values of type
        let count_value = read_u32(order, &bytes[4..8]);

        // Bytes 8..11: u32 offset in file to Value
        let value_offset_value = read_u32(order, &bytes[8..12]);

        // Decode the tag.
        let tag = match decode_tag(tag_value) {
            Some(tag) => tag,
            None => {
                return Err(ReadError::InvalidTag { tag: tag_value });
            },
        };

        assert(known_tiff_tag(tag_value));

        // Decode the type.
        let tpe = match decode_tag_type(tpe_value) {
            Some(tpe) => tpe,
            None => {
                return Err(ReadError::InvalidTagType { tpe: tpe_value });
            },
        };
        let value_size = tag_size(&tpe);

        // Let's get the value(s) of this tag.
        assert(count_value * value_size <= 0x8_0000_0000) by (nonlinear_arith)
            requires
                count_value <= u32::MAX,
                0 <= value_size <= 8,
        ;
        let tot_size: u64 = count_value as u64 * value_size as u64;
        let start: u64 = if tot_size <= 4 {
            // Can directly read the value at the value field.
            position + 8
        } else {
            // Have to read from the address pointed at by the value field.
            value_offset_value as u64
        };
        let ghost raw = raw_entry(order, data@, position as int)->0;
        assert(start == values_start(position as int, raw, value_size as int));
        let mut values: Vec<TagValue> = Vec::new();
        let mut j: u32 = 0;
        while j < count_value
            invariant
                j <= count_value,
                1 <= value_size <= 8,
                value_size == spec_tag_size(tpe),
                count_value as u64 * value_size as u64 <= 4 ==> start + 4 <= u64::MAX,
                count_value as u64 * value_size as u64 > 4 ==> start <= u32::MAX,
                position == entry_position(ifd_offset as int, entry_number as int),
                raw_entry(order, data@, position as int) == Some(raw),
                known_tiff_tag(raw.tag),
                TagType::spec_from_u16(raw.tpe) == Some(tpe),
                raw.count == count_value,
                start == values_start(position as int, raw, value_size as int),
                values.len() == j,
                first_value_error(data@, start as int, value_size as int, tpe, j as int) is None,
                forall|k: int|
                    0 <= k < j ==> value_bytes(data@, start as int, value_size as int, k) is Some
                        && holds_value(
                        #[trigger] values[k],
                        order,
                        value_bytes(data@, start as int, value_size as int, k)->0,
                        tpe,
                    ),
            decreases count_value - j,
        {
            assert(j as u64 * value_size as u64 <= count_value as u64 * value_size as u64) by (nonlinear_arith)
                requires
                    j <= count_value,
                    0 <= value_size,
            ;
            assert(j as u64 * value_size as u64 <= 0x8_0000_0000) by (nonlinear_arith)
                requires
                    j <= u32::MAX,
                    0 <= value_size <= 8,
            ;
            let at: u64 = start + j as u64 * value_size as u64;
            let value = match self.read_n(data, at, value_size as u64) {
                Some(value) => value,
                None => {
                    proof {
                        lemma_value_error_stays(
                            data@,
                            start as int,
                            value_size as int,
                            tpe,
                            j as int,
                            count_value as int,
                        );
                    }
                    return Err(ReadError::TruncatedValue);
                },
            };
            match self.vec_to_tag_value(order, value, &tpe) {
                Ok(value) => values.push(value),
                Err(error) => {
                    proof {
                        lemma_value_error_stays(
                            data@,
                            start as int,
                            value_size as int,
                            tpe,
                            j as int,
                            count_value as int,
                        );
                    }
                    return Err(error);
                },
            }
            j += 1;
        }
        // Create IFD entry.
        let ifd_entry = IFDEntry {
            tag,
            tpe,
            count: count_value,
            value_offset: value_offset_value,
            value: values,
        };
        Ok(ifd_entry)
    }

    /// Reads the `.tiff` file, starting with the byte order.
    pub fn read(&self, data: &[u8]) -> (tiff: Result<Box<TIFF>, ReadError>)
        ensures
            reads_as_tiff(tiff, data@),
    {
        match self.read_byte_order(data) {
            Ok(order) => self.read_tiff(order, data),
            Err(error) => Err(error),
        }
    }

    /// Reads the `.tiff` file, given a `ByteOrder`.
    ///
    /// This starts by reading the magic number, the IFD offset, the IFDs themselves, and finally,
    /// the image data.
    pub fn read_tiff(&self, order: TIFFByteOrder, data: &[u8]) -> (tiff: Result<Box<TIFF>, ReadError>)
        ensures
            reads_in_order(tiff, order, data@),
    {
        match self.read_magic(order, data) {
            Ok(_) => {},
            Err(error) => {
                return Err(error);
            },
        }
        let ifd_offset = match self.read_ifd_offset(order, data) {
            Ok(ifd_offset) => ifd_offset,
            Err(error) => {
                return Err(error);
            },
        };
        let ifd = match self.read_IFD(order, data, ifd_offset) {
            Ok(ifd) => ifd,
            Err(error) => {
                return Err(error);
            },
        };
        let image_data = match self.read_image_data(order, data, &ifd) {
            Ok(image_data) => image_data,
            Err(error) => {
                return Err(error);
            },
        };
        Ok(Box::new(TIFF { ifds: vec![ifd], image_data }))
    }

    /// Reads from the tags of a directory how the samples of its image lie
    /// in the file.
    pub fn read_layout(&self, ifd: &IFD) -> (layout: Result<StripLayout, ReadError>)
        ensures
            match layout {
                Ok(layout) => layout_error(ifd.entries@) is None && layout@ == layout_of(ifd.entries@),
                Err(error) => layout_error(ifd.entries@) == Some(error),
            },
    {
        let compression = match find_entry(ifd, TIFFTag::CompressionTag) {
            Some(i) => &ifd.entries[i],
            None => {
                return Err(ReadError::CompressionTagNotFound);
            },
        };
        let compression = match first_short(compression) {
            Ok(v) => v,
            Err(error) => {
                return Err(error);
            },
        };

        // Image size and depth.
        let image_length = match find_entry(ifd, TIFFTag::ImageLengthTag) {
            Some(i) => &ifd.entries[i],
            None => {
                return Err(ReadError::ImageLengthNotFound);
            },
        };
        let image_width = match find_entry(ifd, TIFFTag::ImageWidthTag) {
            Some(i) => &ifd.entries[i],
            None => {
                return Err(ReadError::ImageWidthNotFound);
            },
        };
        let image_depth = match find_entry(ifd, TIFFTag::BitsPerSampleTag) {
            Some(i) => &ifd.entries[i],
            None => {
                return Err(ReadError::ImageDepthNotFound);
            },
        };
        let image_length = match first_short(image_length) {
            Ok(v) => v,
            Err(error) => {
                return Err(error);
            },
        };
        let image_width = match first_short(image_width) {
            Ok(v) => v,
            Err(error) => {
                return Err(error);
            },
        };
        let image_depth = match first_short(image_depth) {
            Ok(v) => v / 8,
            Err(error) => {
                return Err(error);
            },
        };

        // Storage location within the TIFF. First, lets get the number of rows per strip.
        let rows_per_strip = match find_entry(ifd, TIFFTag::RowsPerStripTag) {
            Some(i) => &ifd.entries[i],
            None => {
                return Err(ReadError::RowsPerStripNotFound);
            },
        };
        // For each strip, its offset within the TIFF file.
        let strip_offsets = match find_entry(ifd, TIFFTag::StripOffsetsTag) {
            Some(i) => &ifd.entries[i],
            None => {
                return Err(ReadError::StripOffsetsNotFound);
            },
        };
        let strip_byte_counts = match find_entry(ifd, TIFFTag::StripByteCountsTag) {
            Some(i) => &ifd.entries[i],
            None => {
                return Err(ReadError::StripByteCountsNotFound);
            },
        };
        let rows_per_strip = match first_short(rows_per_strip) {
            Ok(v) => v,
            Err(error) => {
                return Err(error);
            },
        };
        let offsets = collect_long_values(&strip_offsets.value);
        let byte_counts = collect_long_values(&strip_byte_counts.value);
        Ok(
            StripLayout {
                compression,
                image_length,
                image_width,
                image_depth,
                rows_per_strip,
                offsets,
                byte_counts,
            },
        )
    }

    /// Reads the image data into a 3D-Vec<u8>: rows of pixels of one sample.
    ///
    /// The strips are read one after the other, and their samples fill the
    /// image row by row.
    pub fn read_image_data(&self, order: TIFFByteOrder, data: &[u8], ifd: &IFD) -> (image: Result<
        Vec<Vec<Vec<usize>>>,
        ReadError,
    >)
        ensures
            reads_as_image(image, order, data@, *ifd),
    {
        let layout = match self.read_layout(ifd) {
            Ok(layout) => layout,
            Err(error) => {
                return Err(error);
            },
        };
        assert(layout.image_length * layout.image_width <= 0xffff * 0xffff && layout.rows_per_strip
            * layout.image_width <= 0xffff * 0xffff) by (nonlinear_arith)
            requires
                0 <= layout.image_length <= 0xffff,
                0 <= layout.image_width <= 0xffff,
                0 <= layout.rows_per_strip <= 0xffff,
        ;
        let pixels: usize = layout.image_length as usize * layout.image_width as usize;
        let block_size: usize = layout.rows_per_strip as usize * layout.image_width as usize;
        let strips: usize = if layout.offsets.len() <= layout.byte_counts.len() {
            layout.offsets.len()
        } else {
            layout.byte_counts.len()
        };
        // Read strip after strip.
        let mut samples: Vec<usize> = Vec::new();
        let mut k: usize = 0;
        while k < strips
            invariant
                k <= strips,
                layout_error(ifd.entries@) is None,
                layout@ == layout_of(ifd.entries@),
                strips == layout@.strips(),
                pixels == layout@.pixels(),
                block_size == layout@.block_size(),
                strips_samples(order, data@, layout@, k as int) == Ok::<Seq<usize>, ReadError>(samples@),
            decreases strips - k,
        {
            let compression = match Compression::from_u16(layout.compression) {
                Some(compression) => compression,
                None => {
                    proof {
                        assert(strip_result(order, data@, layout@, k as int) is Err);
                        assert(strips_samples(order, data@, layout@, k + 1) is Err);
                        lemma_strip_error_stays(order, data@, layout@, k as int, strips as int);
                    }
                    return Err(ReadError::UnknownCompression { code: layout.compression });
                },
            };
            let strip = match self.read_block_data(
                order,
                data,
                &layout.offsets[k],
                &layout.byte_counts[k],
                block_size,
                layout.image_depth as usize,
                compression,
            ) {
                Ok(strip) => strip,
                Err(error) => {
                    proof {
                        assert(strip_result(order, data@, layout@, k as int) is Err);
                        assert(strips_samples(order, data@, layout@, k + 1) is Err);
                        lemma_strip_error_stays(order, data@, layout@, k as int, strips as int);
                    }
                    return Err(error);
                },
            };
            assert(strip_result(order, data@, layout@, k as int) == Ok::<Seq<usize>, ReadError>(strip@));
            if strip.len() > pixels || samples.len() > pixels - strip.len() {
                proof {
                    assert(strips_samples(order, data@, layout@, k + 1) == Err::<Seq<usize>, ReadError>(
                        ReadError::TooManySamples,
                    ));
                    lemma_strip_error_stays(order, data@, layout@, k as int, strips as int);
                }
                return Err(ReadError::TooManySamples);
            }
            let ghost before = samples@;
            samples.extend_from_slice(strip.as_slice());
            assert(samples@ =~= before + strip@);
            k += 1;
        }
        Ok(build_image(&samples, layout.image_length, layout.image_width))
    }

    /// The first `block_size` samples of `image_depth` bytes of a block of bytes.
    pub fn block_values(&self, order: TIFFByteOrder, block: &[u8], block_size: usize, image_depth: usize) -> (values:
        Result<Vec<usize>, ReadError>)
        requires
            block_size * image_depth <= block.len(),
        ensures
            match values {
                Ok(values) => samples_of(order, block@, block_size as int, image_depth as int) == Ok::<
                    Seq<usize>,
                    ReadError,
                >(values@),
                Err(error) => samples_of(order, block@, block_size as int, image_depth as int) == Err::<
                    Seq<usize>,
                    ReadError,
                >(error),
            },
    {
        if block_size > 0 && !(image_depth == 0 || image_depth == 1 || image_depth == 2 || image_depth == 4
            || image_depth == 8) {
            return Err(ReadError::UnsupportedDepth { depth: image_depth });
        }
        let mut elevations: Vec<usize> = Vec::new();
        let mut i: usize = 0;
        while i < block_size
            invariant
                i <= block_size,
                block_size > 0 ==> supported_depth(image_depth as int),
                block_size * image_depth <= block.len(),
                elevations.len() == i,
                forall|k: int|
                    0 <= k < i ==> elevations[k] == sample_value(
                        order,
                        sample_bytes(block@, image_depth as int, k),
                    ) as usize,
            decreases block_size - i,
        {
            assert(i * image_depth + image_depth <= block_size * image_depth) by (nonlinear_arith)
                requires
                    i < block_size,
                    0 <= image_depth,
            ;
            // Take image_depth bytes
            let v = &block[i * image_depth..i * image_depth + image_depth];
            elevations.push(self.vec_to_value(order, v));
            i += 1;
        }
        assert(elevations@ =~= block_samples(order, block@, block_size as int, image_depth as int));
        Ok(elevations)
    }

    /// The samples of a block whose bytes were deflated, given what
    /// inflating them gave.
    pub fn inflated_block(
        &self,
        order: TIFFByteOrder,
        inflated: Option<Vec<u8>>,
        block_size: usize,
        image_depth: usize,
    ) -> (values: Result<Vec<usize>, ReadError>)
        requires
            block_size * image_depth <= usize::MAX,
        ensures
            match values {
                Ok(values) => inflated_samples(
                    order,
                    bytes_of(inflated),
                    block_size as int,
                    image_depth as int,
                ) == Ok::<Seq<usize>, ReadError>(values@),
                Err(error) => inflated_samples(
                    order,
                    bytes_of(inflated),
                    block_size as int,
                    image_depth as int,
                ) == Err::<Seq<usize>, ReadError>(error),
            },
    {
        let inflated = match inflated {
            Some(inflated) => inflated,
            None => {
                return Err(ReadError::InflateFailed);
            },
        };
        let mut decompressed = zero_bytes(block_size * image_depth);
        let ghost before = decompressed@;
        decompressed.extend_from_slice(inflated.as_slice());
        assert(decompressed@ =~= before + inflated@);
        self.block_values(order, decompressed.as_slice(), block_size, image_depth)
    }

    /// Reads the samples of the block of `byte_count` bytes at `offset`.
    pub fn read_block_data(
        &self,
        order: TIFFByteOrder,
        data: &[u8],
        offset: &u32,
        byte_count: &u32,
        block_size: usize,
        image_depth: usize,
        compression: Compression,
    ) -> (values: Result<Vec<usize>, ReadError>)
        ensures
            match values {
                Ok(values) => block_result(
                    order,
                    data@,
                    *offset,
                    *byte_count,
                    block_size as int,
                    image_depth as int,
                    compression,
                ) == Ok::<Seq<usize>, ReadError>(values@),
                Err(error) => block_result(
                    order,
                    data@,
                    *offset,
                    *byte_count,
                    block_size as int,
                    image_depth as int,
                    compression,
                ) == Err::<Seq<usize>, ReadError>(error),
            },
    {
        let total: usize = match block_size.checked_mul(image_depth) {
            Some(total) => total,
            None => {
                return Err(ReadError::BlockTooLarge);
            },
        };
        match compression {
            Compression::Uncompressed => {
                if total as u64 == *byte_count as u64 {
                    // This should be the normal condition
                    match self.read_n(data, *offset as u64, *byte_count as u64) {
                        Some(block) => self.block_values(order, block, block_size, image_depth),
                        None => Err(ReadError::TruncatedBlock),
                    }
                } else {
                    // This can happen at the end of a stripped image
                    let decompressed = zero_bytes(total);
                    self.block_values(order, decompressed.as_slice(), block_size, image_depth)
                }
            },
            Compression::AdobeDeflate => {
                let compressed = match self.read_n(data, *offset as u64, *byte_count as u64) {
                    Some(compressed) => compressed,
                    None => {
                        return Err(ReadError::TruncatedBlock);
                    },
                };
                let inflated = match inflate(compressed) {
                    Ok(inflated) => Some(inflated),
                    Err(_) => None,
                };
                self.inflated_block(order, inflated, block_size, image_depth)
            },
            _ => Err(ReadError::CompressionNotSupported),
        }
    }

    /// The `bytes_to_read` bytes of `data` from `position` on, if `data` has them.
    pub fn read_n<'a>(&self, data: &'a [u8], position: u64, bytes_to_read: u64) -> (bytes: Option<&'a [u8]>)
        ensures
            match bytes {
                Some(bytes) => bytes_at(data@, position as int, bytes_to_read as int) == Some(bytes@),
                None => bytes_at(data@, position as int, bytes_to_read as int) is None,
            },
    {
        let len: usize = data.len();
        if position > len as u64 || bytes_to_read > len as u64 - position {
            return None;
        }
        let start: usize = position as usize;
        let end: usize = start + bytes_to_read as usize;
        Some(&data[start..end])
    }

    /// Converts a Vec<u8> into a TagValue, depending on the type of the tag. In the TIFF file
    /// format, each tag type indicates which value it stores (e.g., a byte, ascii, or long value).
    /// This means that the tag values have to be read taking the tag type into consideration.
    pub fn vec_to_tag_value(&self, order: TIFFByteOrder, vec: &[u8], tpe: &TagType) -> (value: Result<
        TagValue,
        ReadError,
    >)
        ensures
            match value {
                Ok(value) => readable(*tpe, vec.len() as int) && holds_value(value, order, vec@, *tpe),
                Err(error) => !readable(*tpe, vec.len() as int) && error == (ReadError::UnreadableValue {
                    tpe: *tpe,
                }),
            },
    {
        let len: usize = vec.len();
        let half: usize = len / 2;
        match tpe {
            TagType::BYTE => if len >= 1 {
                Ok(TagValue::ByteValue(vec[0]))
            } else {
                Err(ReadError::UnreadableValue { tpe: *tpe })
            },
            TagType::ASCII => Ok(TagValue::AsciiValue(lossy_text(vec))),
            TagType::SHORT => if len >= 2 {
                Ok(TagValue::ShortValue(read_u16(order, vec)))
            } else {
                Err(ReadError::UnreadableValue { tpe: *tpe })
            },
            TagType::LONG => if len >= 4 {
                Ok(TagValue::LongValue(read_u32(order, vec)))
            } else {
                Err(ReadError::UnreadableValue { tpe: *tpe })
            },
            TagType::RATIONAL => if half >= 4 {
                assert(vec@.take(half as int) == vec@.subrange(0, half as int));
                assert(vec@.skip(half as int) == vec@.subrange(half as int, len as int));
                Ok(TagValue::RationalValue((read_u32(order, &vec[0..half]), read_u32(order, &vec[half..len]))))
            } else {
                Err(ReadError::UnreadableValue { tpe: *tpe })
            },
            TagType::SBYTE => if len >= 1 {
                Ok(TagValue::SignedByteValue(byte_to_signed(vec[0])))
            } else {
                Err(ReadError::UnreadableValue { tpe: *tpe })
            },
            TagType::SSHORT => if len >= 2 {
                Ok(TagValue::SignedShortValue(read_i16(order, vec)))
            } else {
                Err(ReadError::UnreadableValue { tpe: *tpe })
            },
            TagType::SLONG => if len >= 4 {
                Ok(TagValue::SignedLongValue(read_i32(order, vec)))
            } else {
                Err(ReadError::UnreadableValue { tpe: *tpe })
            },
            TagType::SRATIONAL => if half >= 4 {
                assert(vec@.take(half as int) == vec@.subrange(0, half as int));
                assert(vec@.skip(half as int) == vec@.subrange(half as int, len as int));
                Ok(
                    TagValue::SignedRationalValue(
                        (read_i32(order, &vec[0..half]), read_i32(order, &vec[half..len])),
                    ),
                )
            } else {
                Err(ReadError::UnreadableValue { tpe: *tpe })
            },
            TagType::FLOAT => if len >= 4 {
                Ok(TagValue::FloatValue(read_u32(order, vec)))
            } else {
                Err(ReadError::UnreadableValue { tpe: *tpe })
            },
            TagType::DOUBLE => if len >= 8 {
                Ok(TagValue::DoubleValue(read_u64(order, vec)))
            } else {
                Err(ReadError::UnreadableValue { tpe: *tpe })
            },
            TagType::UNDEFINED => Ok(TagValue::ByteValue(0)),
            TagType::IFD | TagType::LONG8 | TagType::SLONG8 | TagType::IFD8 => Err(
                ReadError::UnreadableValue { tpe: *tpe },
            ),
        }
    }

    /// Converts a number of u8 values to a usize value. This doesn't check if usize is at least
    /// u64, so be careful with large values.
    pub fn vec_to_value(&self, order: TIFFByteOrder, vec: &[u8]) -> (value: usize)
        requires
            supported_depth(vec.len() as int),
        ensures
            value == sample_value(order, vec@) as usize,
    {
        let len: usize = vec.len();
        if len == 0 {
            0
        } else if len == 1 {
            vec[0] as usize
        } else if len == 2 {
            read_u16(order, vec) as usize
        } else if len == 4 {
            read_u32(order, vec) as usize
        } else {
            #[verifier::truncate]
            (read_u64(order, vec) as usize)
        }
    }
}

/// A value that is not in order, after values that are, gives the error of
/// every longer run of values.
proof fn lemma_value_error_stays(data: Seq<u8>, start: int, size: int, tpe: TagType, j: int, n: int)
    requires
        0 <= j < n,
        first_value_error(data, start, size, tpe, j) is None,
        value_error(data, start, size, tpe, j) is Some,
    ensures
        first_value_error(data, start, size, tpe, n) == value_error(data, start, size, tpe, j),
    decreases n,
{
    if n > j + 1 {
        lemma_value_error_stays(data, start, size, tpe, j, n - 1);
    }
}

/// An entry whose error ends the reading, after entries that do not end it,
/// gives the error of every longer run of entries.
proof fn lemma_fatal_error_stays(order: TIFFByteOrder, data: Seq<u8>, first_entry: int, i: int, n: int)
    requires
        0 <= i < n,
        first_fatal_error(order, data, first_entry, i) is None,
        tag_error(order, data, entry_position(first_entry, i)) is Some,
        !skipped(tag_error(order, data, entry_position(first_entry, i))->0),
    ensures
        first_fatal_error(order, data, first_entry, n) == tag_error(
            order,
            data,
            entry_position(first_entry, i),
        ),
    decreases n,
{
    if n > i + 1 {
        lemma_fatal_error_stays(order, data, first_entry, i, n - 1);
    }
}

/// The place of the first entry of a directory that has the given tag.
fn find_entry(ifd: &IFD, tag: TIFFTag) -> (found: Option<usize>)
    ensures
        match found {
            Some(i) => i < ifd.entries.len() && entry_with(ifd.entries@, tag) == Some(ifd.entries[i as int]),
            None => entry_with(ifd.entries@, tag) is None,
        },
{
    let mut i: usize = 0;
    assert(ifd.entries@.skip(0) == ifd.entries@);
    while i < ifd.entries.len()
        invariant
            i <= ifd.entries.len(),
            entry_with(ifd.entries@, tag) == entry_with(ifd.entries@.skip(i as int), tag),
        decreases ifd.entries.len() - i,
    {
        if ifd.entries[i].tag == tag {
            return Some(i);
        }
        assert(ifd.entries@.skip(i as int).skip(1) == ifd.entries@.skip(i + 1));
        i += 1;
    }
    None
}

/// The first value of an entry as a short number.
fn first_short(entry: &IFDEntry) -> (value: Result<u16, ReadError>)
    ensures
        value == short_or_zero(*entry),
{
    if entry.value.len() == 0 {
        return Err(ReadError::EmptyValue { tag: entry.tag });
    }
    match &entry.value[0] {
        TagValue::ShortValue(v) => Ok(*v),
        _ => Ok(0),
    }
}

/// Those of the values that are long numbers, in their order.
fn collect_long_values(values: &Vec<TagValue>) -> (longs: Vec<u32>)
    ensures
        longs@ == long_values(values@),
{
    let mut longs: Vec<u32> = Vec::new();
    let mut i: usize = 0;
    while i < values.len()
        invariant
            i <= values.len(),
            longs@ == long_values(values@.take(i as int)),
        decreases values.len() - i,
    {
        assert(values@.take(i + 1).drop_last() == values@.take(i as int));
        match &values[i] {
            TagValue::LongValue(v) => longs.push(*v),
            _ => (),
        }
        i += 1;
    }
    assert(values@.take(values.len() as int) == values@);
    longs
}

/// The image of `length` rows of `width` pixels that holds the given
/// samples row by row, one sample to a pixel.
fn build_image(samples: &Vec<usize>, length: u16, width: u16) -> (image: Vec<Vec<Vec<usize>>>)
    ensures
        is_image_of(image@, samples@, length as int, width as int),
{
    let mut img: Vec<Vec<Vec<usize>>> = Vec::new();
    let mut row: usize = 0;
    while row < length as usize
        invariant
            row <= length,
            img.len() == row,
            forall|r: int| 0 <= r < row ==> is_row_of((#[trigger] img[r])@, samples@, width as int, r),
        decreases length - row,
    {
        let mut pixels: Vec<Vec<usize>> = Vec::new();
        let mut column: usize = 0;
        while column < width as usize
            invariant
                column <= width,
                row < length,
                pixels.len() == column,
                forall|c: int|
                    0 <= c < column ==> (#[trigger] pixels[c])@ == seq![
                        pixel_sample(samples@, width as int, row as int, c),
                    ],
            decreases width - column,
        {
            assert(row * width + column <= 0xffff * 0xffff + 0xffff) by (nonlinear_arith)
                requires
                    row <= 0xffff,
                    width <= 0xffff,
                    column <= 0xffff,
            ;
            let at: usize = row * width as usize + column;
            let sample: usize = if at < samples.len() {
                samples[at]
            } else {
                0
            };
            let pixel = vec![sample];
            assert(pixel@ =~= seq![pixel_sample(samples@, width as int, row as int, column as int)]);
            pixels.push(pixel);
            column += 1;
        }
        img.push(pixels);
        row += 1;
    }
    img
}

/// A strip that cannot be read, or that holds too many samples, after
/// strips that can be read, gives the error of every longer run of strips.
proof fn lemma_strip_error_stays(order: TIFFByteOrder, data: Seq<u8>, layout: StripLayoutView, k: int, n: int)
    requires
        0 <= k < n,
        strips_samples(order, data, layout, k) is Ok,
        strips_samples(order, data, layout, k + 1) is Err,
    ensures
        strips_samples(order, data, layout, n) == strips_samples(order, data, layout, k + 1),
    decreases n,
{
    if n > k + 1 {
        lemma_strip_error_stays(order, data, layout, k, n - 1);
    }
}

/// The bytes that inflating gave, if it gave any.
pub open spec fn bytes_of(inflated: Option<Vec<u8>>) -> Option<Seq<u8>> {
    match inflated {
        Some(bytes) => Some(bytes@),
        None => None,
    }
}

/// `n` bytes that are 0.
fn zero_bytes(n: usize) -> (bytes: Vec<u8>)
    ensures
        bytes@ == zeros(n as int),
{
    let mut bytes: Vec<u8> = Vec::new();
    let mut i: usize = 0;
    while i < n
        invariant
            i <= n,
            bytes.len() == i,
            forall|k: int| 0 <= k < i ==> bytes[k] == 0,
        decreases n - i,
    {
        bytes.push(0);
        i += 1;
    }
    assert(bytes@ =~= zeros(n as int));
    bytes
}

/// The signed number that a byte stands for in two's complement.
fn byte_to_signed(byte: u8) -> (value: i8)
    ensures
        value == to_signed(byte as int, 0x100),
{
    if byte >= 128 {
        (byte as i16 - 256) as i8
    } else {
        byte as i8
    }
}

} // verus!
