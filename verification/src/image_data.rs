use vstd::prelude::*;

verus! {

/// The samples of an image as they were decoded, all of one type. `S` is the
/// type of a sample of single precision, `D` that of a sample of double
/// precision.
#[derive(Debug)]
pub enum ImageData<S, D> {
    U8(Vec<u8>),
    U16(Vec<u16>),
    U32(Vec<u32>),
    U64(Vec<u64>),
    F32(Vec<S>),
    F64(Vec<D>),
    I8(Vec<i8>),
    I16(Vec<i16>),
    I32(Vec<i32>),
    I64(Vec<i64>),
}

impl<S, D> ImageData<S, D> {
    /// The number of samples.
    pub open spec fn spec_len(&self) -> nat {
        match self {
            ImageData::U8(data) => data@.len(),
            ImageData::U16(data) => data@.len(),
            ImageData::U32(data) => data@.len(),
            ImageData::U64(data) => data@.len(),
            ImageData::F32(data) => data@.len(),
            ImageData::F64(data) => data@.len(),
            ImageData::I8(data) => data@.len(),
            ImageData::I16(data) => data@.len(),
            ImageData::I32(data) => data@.len(),
            ImageData::I64(data) => data@.len(),
        }
    }

    /// The number of samples.
    pub fn len(&self) -> (len: usize)
        ensures
            len == self.spec_len(),
    {
        match self {
            ImageData::U8(data) => data.len(),
            ImageData::U16(data) => data.len(),
            ImageData::U32(data) => data.len(),
            ImageData::U64(data) => data.len(),
            ImageData::F32(data) => data.len(),
            ImageData::F64(data) => data.len(),
            ImageData::I8(data) => data.len(),
            ImageData::I16(data) => data.len(),
            ImageData::I32(data) => data.len(),
            ImageData::I64(data) => data.len(),
        }
    }
}

} // verus!
