use vstd::prelude::*;

verus! {

/// One sample of a raster. `S` is the type of a sample of single precision,
/// `D` that of a sample of double precision.
#[derive(Debug, Clone, Copy, PartialEq)]
pub enum RasterValue<S, D> {
    U8(u8),
    U16(u16),
    U32(u32),
    U64(u64),
    F32(S),
    F64(D),
    I8(i8),
    I16(i16),
    I32(i32),
    I64(i64),
}

impl<S: Copy, D: Copy> RasterValue<S, D> {
    pub fn as_u8(&self) -> (value: Option<u8>)
        ensures
            value == (match *self {
                RasterValue::U8(value) => Some(value),
                _ => None,
            }),
    {
        match self {
            RasterValue::U8(value) => Some(*value),
            _ => None,
        }
    }

    pub fn as_u16(&self) -> (value: Option<u16>)
        ensures
            value == (match *self {
                RasterValue::U16(value) => Some(value),
                _ => None,
            }),
    {
        match self {
            RasterValue::U16(value) => Some(*value),
            _ => None,
        }
    }

    pub fn as_u32(&self) -> (value: Option<u32>)
        ensures
            value == (match *self {
                RasterValue::U32(value) => Some(value),
                _ => None,
            }),
    {
        match self {
            RasterValue::U32(value) => Some(*value),
            _ => None,
        }
    }

    pub fn as_u64(&self) -> (value: Option<u64>)
        ensures
            value == (match *self {
                RasterValue::U64(value) => Some(value),
                _ => None,
            }),
    {
        match self {
            RasterValue::U64(value) => Some(*value),
            _ => None,
        }
    }

    pub fn as_f32(&self) -> (value: Option<S>)
        ensures
            value == (match *self {
                RasterValue::F32(value) => Some(value),
                _ => None,
            }),
    {
        match self {
            RasterValue::F32(value) => Some(*value),
            _ => None,
        }
    }

    pub fn as_f64(&self) -> (value: Option<D>)
        ensures
            value == (match *self {
                RasterValue::F64(value) => Some(value),
                _ => None,
            }),
    {
        match self {
            RasterValue::F64(value) => Some(*value),
            _ => None,
        }
    }

    pub fn as_i8(&self) -> (value: Option<i8>)
        ensures
            value == (match *self {
                RasterValue::I8(value) => Some(value),
                _ => None,
            }),
    {
        match self {
            RasterValue::I8(value) => Some(*value),
            _ => None,
        }
    }

    pub fn as_i16(&self) -> (value: Option<i16>)
        ensures
            value == (match *self {
                RasterValue::I16(value) => Some(value),
                _ => None,
            }),
    {
        match self {
            RasterValue::I16(value) => Some(*value),
            _ => None,
        }
    }

    pub fn as_i32(&self) -> (value: Option<i32>)
        ensures
            value == (match *self {
                RasterValue::I32(value) => Some(value),
                _ => None,
            }),
    {
        match self {
            RasterValue::I32(value) => Some(*value),
            _ => None,
        }
    }

    pub fn as_i64(&self) -> (value: Option<i64>)
        ensures
            value == (match *self {
                RasterValue::I64(value) => Some(value),
                _ => None,
            }),
    {
        match self {
            RasterValue::I64(value) => Some(*value),
            _ => None,
        }
    }

}

/// The samples of a raster, all of one type.
#[derive(Debug)]
pub enum RasterData<S, D> {
    U8(Vec<u8>),
    U16(Vec<u16>),
    U32(Vec<u32>),
    U64(Vec<u64>),
    F32(Vec<S>),
    F64(Vec<D>),
    I8(Vec<i8>),
    I16(Vec<i16>),
    I32(Vec<i32>),
    I64(Vec<i64>),
}

impl<S: Copy, D: Copy> RasterData<S, D> {
    /// The number of samples.
    pub open spec fn spec_len(&self) -> nat {
        match self {
            RasterData::U8(data) => data@.len(),
            RasterData::U16(data) => data@.len(),
            RasterData::U32(data) => data@.len(),
            RasterData::U64(data) => data@.len(),
            RasterData::F32(data) => data@.len(),
            RasterData::F64(data) => data@.len(),
            RasterData::I8(data) => data@.len(),
            RasterData::I16(data) => data@.len(),
            RasterData::I32(data) => data@.len(),
            RasterData::I64(data) => data@.len(),
        }
    }

    /// The sample at `index`.
    pub open spec fn spec_value(&self, index: int) -> RasterValue<S, D> {
        match self {
            RasterData::U8(data) => RasterValue::U8(data[index]),
            RasterData::U16(data) => RasterValue::U16(data[index]),
            RasterData::U32(data) => RasterValue::U32(data[index]),
            RasterData::U64(data) => RasterValue::U64(data[index]),
            RasterData::F32(data) => RasterValue::F32(data[index]),
            RasterData::F64(data) => RasterValue::F64(data[index]),
            RasterData::I8(data) => RasterValue::I8(data[index]),
            RasterData::I16(data) => RasterValue::I16(data[index]),
            RasterData::I32(data) => RasterValue::I32(data[index]),
            RasterData::I64(data) => RasterValue::I64(data[index]),
        }
    }

    /// The number of samples.
    pub fn len(&self) -> (len: usize)
        ensures
            len == self.spec_len(),
    {
        match self {
            RasterData::U8(data) => data.len(),
            RasterData::U16(data) => data.len(),
            RasterData::U32(data) => data.len(),
            RasterData::U64(data) => data.len(),
            RasterData::F32(data) => data.len(),
            RasterData::F64(data) => data.len(),
            RasterData::I8(data) => data.len(),
            RasterData::I16(data) => data.len(),
            RasterData::I32(data) => data.len(),
            RasterData::I64(data) => data.len(),
        }
    }

    /// The sample at `index`, with its type.
    pub fn get_value(&self, index: usize) -> (value: RasterValue<S, D>)
        requires
            index < self.spec_len(),
        ensures
            value == self.spec_value(index as int),
    {
        match self {
            RasterData::U8(data) => RasterValue::U8(data[index]),
            RasterData::U16(data) => RasterValue::U16(data[index]),
            RasterData::U32(data) => RasterValue::U32(data[index]),
            RasterData::U64(data) => RasterValue::U64(data[index]),
            RasterData::F32(data) => RasterValue::F32(data[index]),
            RasterData::F64(data) => RasterValue::F64(data[index]),
            RasterData::I8(data) => RasterValue::I8(data[index]),
            RasterData::I16(data) => RasterValue::I16(data[index]),
            RasterData::I32(data) => RasterValue::I32(data[index]),
            RasterData::I64(data) => RasterValue::I64(data[index]),
        }
    }
}

} // verus!
