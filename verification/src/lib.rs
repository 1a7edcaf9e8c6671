//! Georeferencing for raster images: which transform between raster space and
//! model space a set of tags selects, the mesh that irregular tie points are
//! interpolated over, the key directory of an image, and its samples.
//!
//! Coordinates and samples of floating point type are never computed with
//! here, only selected and passed on, so their types are parameters of every
//! type that holds one.
use vstd::prelude::*;

pub mod coordinate_transform;
pub mod decoder_ext;
pub mod endian;
pub mod error;
pub mod geo_key_directory;
pub mod image_data;
pub mod lowlevel;
pub mod raster_data;
pub mod reader;
pub mod tiff;

pub use crate::coordinate_transform::{Coord, CoordinateTransform};
pub use crate::error::FormatError;
pub use crate::geo_key_directory::{GeoKeyDirectory, GeoKeyDirectoryTag, GeoKeyError, RasterType};
pub use crate::raster_data::{RasterData, RasterValue};

verus! {

/// The raster value type that can be read from a GeoTIFF.
#[derive(Debug, Clone, Copy, PartialEq, Eq, Structural)]
pub enum RasterDataType {
    U8,
    U16,
    U32,
    U64,
    F32,
    F64,
    I8,
    I16,
    I32,
    I64,
    CInt16,
    CInt32,
}

/// The basic GeoTIFF struct. This includes any metadata as well as the actual raster data.
///
/// The raster data has a size of raster_width * raster_height * num_samples
#[derive(Debug)]
pub struct GeoTiff<S, D> {
    pub geo_key_directory: GeoKeyDirectory<D>,
    pub raster_width: usize,
    pub raster_height: usize,
    pub num_samples: usize,
    pub coordinate_transform: Option<CoordinateTransform<D>>,
    pub raster_data: RasterData<S, D>,
}

/// The place of a sample in the raster data: the samples of a pixel lie
/// together, the pixels of a row lie together, row after row.
pub open spec fn sample_index(raster_width: int, num_samples: int, x: int, y: int, sample: int) -> int {
    (y * raster_width + x) * num_samples + sample
}

impl<S: Copy, D: Copy> GeoTiff<S, D> {
    /// The raster data holds one sample for each sample of each pixel.
    pub open spec fn wf(&self) -> bool {
        self.raster_data.spec_len() == self.raster_width * self.raster_height * self.num_samples
    }

    /// Puts an image together from its parts, if the raster data holds
    /// `raster_width * raster_height * num_samples` samples.
    pub fn new(
        geo_key_directory: GeoKeyDirectory<D>,
        raster_width: usize,
        raster_height: usize,
        num_samples: usize,
        coordinate_transform: Option<CoordinateTransform<D>>,
        raster_data: RasterData<S, D>,
    ) -> (geotiff: Option<Self>)
        ensures
            geotiff is Some <==> raster_data.spec_len() == raster_width * raster_height * num_samples,
            geotiff is Some ==> {
                &&& geotiff->0.wf()
                &&& geotiff->0.geo_key_directory == geo_key_directory
                &&& geotiff->0.raster_width == raster_width
                &&& geotiff->0.raster_height == raster_height
                &&& geotiff->0.num_samples == num_samples
                &&& geotiff->0.coordinate_transform == coordinate_transform
                &&& geotiff->0.raster_data == raster_data
            },
    {
        let len = raster_data.len();
        let pixels = match raster_width.checked_mul(raster_height) {
            Some(pixels) => pixels,
            None => {
                proof {
                    lemma_product_exceeds(raster_width as int, raster_height as int, num_samples as int);
                }
                if raster_data.len() == 0 && num_samples == 0 {
                    return Some(
                        GeoTiff {
                            geo_key_directory,
                            raster_width,
                            raster_height,
                            num_samples,
                            coordinate_transform,
                            raster_data,
                        },
                    );
                }
                return None;
            },
        };
        match pixels.checked_mul(num_samples) {
            Some(samples) if samples == len => Some(
                GeoTiff {
                    geo_key_directory,
                    raster_width,
                    raster_height,
                    num_samples,
                    coordinate_transform,
                    raster_data,
                },
            ),
            _ => None,
        }
    }

    /// Returns the sample type of the raster data.
    pub fn sample_type(&self) -> (sample_type: RasterDataType)
        ensures
            sample_type == match self.raster_data {
                RasterData::U8(_) => RasterDataType::U8,
                RasterData::U16(_) => RasterDataType::U16,
                RasterData::U32(_) => RasterDataType::U32,
                RasterData::U64(_) => RasterDataType::U64,
                RasterData::F32(_) => RasterDataType::F32,
                RasterData::F64(_) => RasterDataType::F64,
                RasterData::I8(_) => RasterDataType::I8,
                RasterData::I16(_) => RasterDataType::I16,
                RasterData::I32(_) => RasterDataType::I32,
                RasterData::I64(_) => RasterDataType::I64,
            },
    {
        match &self.raster_data {
            RasterData::U8(_) => RasterDataType::U8,
            RasterData::U16(_) => RasterDataType::U16,
            RasterData::U32(_) => RasterDataType::U32,
            RasterData::U64(_) => RasterDataType::U64,
            RasterData::F32(_) => RasterDataType::F32,
            RasterData::F64(_) => RasterDataType::F64,
            RasterData::I8(_) => RasterDataType::I8,
            RasterData::I16(_) => RasterDataType::I16,
            RasterData::I32(_) => RasterDataType::I32,
            RasterData::I64(_) => RasterDataType::I64,
        }
    }

    /// Returns the value at the given pixel coordinates for the specified sample.
    /// The coordinates are in pixel space (0-based). Outside the raster
    /// there is no value.
    pub fn get_value_at_pixel(&self, x: usize, y: usize, sample: usize) -> (value: Option<RasterValue<S, D>>)
        requires
            self.wf(),
            x < self.raster_width && y < self.raster_height ==> sample < self.num_samples,
        ensures
            value == if x < self.raster_width && y < self.raster_height {
                Some(
                    self.raster_data.spec_value(
                        sample_index(
                            self.raster_width as int,
                            self.num_samples as int,
                            x as int,
                            y as int,
                            sample as int,
                        ),
                    ),
                )
            } else {
                None
            },
    {
        // Check bounds
        if x >= self.raster_width || y >= self.raster_height {
            return None;
        }
        let len = self.raster_data.len();
        proof {
            lemma_sample_index_in_bounds(
                self.raster_width as int,
                self.raster_height as int,
                self.num_samples as int,
                x as int,
                y as int,
                sample as int,
            );
        }
        assert(self.raster_width * self.raster_height * self.num_samples == len);
        // Compute index directly from pixel coordinates
        let index: usize = (y * self.raster_width + x) * self.num_samples + sample;

        // Get the value from the appropriate data array
        let value = self.raster_data.get_value(index);

        Some(value)
    }
}

/// Where the number of pixels does not fit the machine, neither does the
/// number of samples, unless a pixel has no sample.
proof fn lemma_product_exceeds(width: int, height: int, samples: int)
    requires
        0 <= width,
        0 <= height,
        0 <= samples,
        width * height > usize::MAX,
    ensures
        samples > 0 ==> width * height * samples > usize::MAX,
        samples == 0 ==> width * height * samples == 0,
{
    assert(samples > 0 ==> width * height * samples >= width * height) by (nonlinear_arith)
        requires
            width * height > 0,
            0 <= samples,
    ;
    assert(samples == 0 ==> width * height * samples == 0) by (nonlinear_arith);
}

/// Every sample of every pixel of a raster has its own place among
/// `width * height * samples` places.
pub proof fn lemma_sample_index_in_bounds(width: int, height: int, samples: int, x: int, y: int, sample: int)
    requires
        0 <= x < width,
        0 <= y < height,
        0 <= sample < samples,
    ensures
        0 <= y * width,
        y * width + x < width * height,
        width * height <= width * height * samples,
        0 <= (y * width + x) * samples < width * height * samples,
        0 <= sample_index(width, samples, x, y, sample) < width * height * samples,
{
    assert(0 <= y * width && y * width + width <= height * width) by (nonlinear_arith)
        requires
            0 <= y < height,
            0 < width,
    ;
    assert(height * width == width * height) by (nonlinear_arith);
    let pixel = y * width + x;
    let pixels = width * height;
    assert(0 <= pixel * samples && pixel * samples + samples <= pixels * samples && pixels <= pixels
        * samples) by (nonlinear_arith)
        requires
            0 <= pixel < pixels,
            0 < samples,
    ;
}

} // verus!
