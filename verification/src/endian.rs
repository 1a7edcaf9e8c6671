use vstd::prelude::*;

use byteorder::{BigEndian, ByteOrder, LittleEndian};

use crate::lowlevel::TIFFByteOrder;

verus! {

/// The number whose two bytes are the first two of `bytes`, lowest first.
pub open spec fn le_u16(bytes: Seq<u8>) -> int {
    bytes[0] + 0x100 * bytes[1]
}

/// The number whose two bytes are the first two of `bytes`, highest first.
pub open spec fn be_u16(bytes: Seq<u8>) -> int {
    0x100 * bytes[0] + bytes[1]
}

/// The number whose four bytes are the first four of `bytes`, lowest first.
pub open spec fn le_u32(bytes: Seq<u8>) -> int {
    le_u16(bytes) + 0x1_0000 * le_u16(bytes.skip(2))
}

/// The number whose four bytes are the first four of `bytes`, highest first.
pub open spec fn be_u32(bytes: Seq<u8>) -> int {
    0x1_0000 * be_u16(bytes) + be_u16(bytes.skip(2))
}

/// The number whose eight bytes are the first eight of `bytes`, lowest first.
pub open spec fn le_u64(bytes: Seq<u8>) -> int {
    le_u32(bytes) + 0x1_0000_0000 * le_u32(bytes.skip(4))
}

/// The number whose eight bytes are the first eight of `bytes`, highest first.
pub open spec fn be_u64(bytes: Seq<u8>) -> int {
    0x1_0000_0000 * be_u32(bytes) + be_u32(bytes.skip(4))
}

/// The number that `value` stands for in two's complement, where `modulus`
/// is the number of values of the type.
pub open spec fn to_signed(value: int, modulus: int) -> int {
    if 2 * value >= modulus {
        value - modulus
    } else {
        value
    }
}

/// The number that the first two bytes of `bytes` hold in the given order.
pub open spec fn spec_u16(order: TIFFByteOrder, bytes: Seq<u8>) -> int {
    match order {
        TIFFByteOrder::LittleEndian => le_u16(bytes),
        TIFFByteOrder::BigEndian => be_u16(bytes),
    }
}

/// The number that the first four bytes of `bytes` hold in the given order.
pub open spec fn spec_u32(order: TIFFByteOrder, bytes: Seq<u8>) -> int {
    match order {
        TIFFByteOrder::LittleEndian => le_u32(bytes),
        TIFFByteOrder::BigEndian => be_u32(bytes),
    }
}

/// The number that the first eight bytes of `bytes` hold in the given order.
pub open spec fn spec_u64(order: TIFFByteOrder, bytes: Seq<u8>) -> int {
    match order {
        TIFFByteOrder::LittleEndian => le_u64(bytes),
        TIFFByteOrder::BigEndian => be_u64(bytes),
    }
}

/// `LittleEndian::read_u16` of byteorder: the number that the first two
/// bytes of `buf` hold, lowest byte first. It panics on a shorter `buf`.
#[verifier::external_body]
fn le_read_u16(buf: &[u8]) -> (value: u16)
    requires
        buf.len() >= 2,
    ensures
        value == le_u16(buf@),
{
    LittleEndian::read_u16(buf)
}

/// `BigEndian::read_u16` of byteorder: the number that the first two
/// bytes of `buf` hold, highest byte first. It panics on a shorter `buf`.
#[verifier::external_body]
fn be_read_u16(buf: &[u8]) -> (value: u16)
    requires
        buf.len() >= 2,
    ensures
        value == be_u16(buf@),
{
    BigEndian::read_u16(buf)
}

/// `LittleEndian::read_u32` of byteorder: the number that the first four
/// bytes of `buf` hold, lowest byte first. It panics on a shorter `buf`.
#[verifier::external_body]
fn le_read_u32(buf: &[u8]) -> (value: u32)
    requires
        buf.len() >= 4,
    ensures
        value == le_u32(buf@),
{
    LittleEndian::read_u32(buf)
}

/// `BigEndian::read_u32` of byteorder: the number that the first four
/// bytes of `buf` hold, highest byte first. It panics on a shorter `buf`.
#[verifier::external_body]
fn be_read_u32(buf: &[u8]) -> (value: u32)
    requires
        buf.len() >= 4,
    ensures
        value == be_u32(buf@),
{
    BigEndian::read_u32(buf)
}

/// `LittleEndian::read_u64` of byteorder: the number that the first eight
/// bytes of `buf` hold, lowest byte first. It panics on a shorter `buf`.
#[verifier::external_body]
fn le_read_u64(buf: &[u8]) -> (value: u64)
    requires
        buf.len() >= 8,
    ensures
        value == le_u64(buf@),
{
    LittleEndian::read_u64(buf)
}

/// `BigEndian::read_u64` of byteorder: the number that the first eight
/// bytes of `buf` hold, highest byte first. It panics on a shorter `buf`.
#[verifier::external_body]
fn be_read_u64(buf: &[u8]) -> (value: u64)
    requires
        buf.len() >= 8,
    ensures
        value == be_u64(buf@),
{
    BigEndian::read_u64(buf)
}

/// `LittleEndian::read_i16` of byteorder: the signed number in two's complement that the first two
/// bytes of `buf` hold, lowest byte first. It panics on a shorter `buf`.
#[verifier::external_body]
fn le_read_i16(buf: &[u8]) -> (value: i16)
    requires
        buf.len() >= 2,
    ensures
        value == to_signed(le_u16(buf@), 0x1_0000),
{
    LittleEndian::read_i16(buf)
}

/// `BigEndian::read_i16` of byteorder: the signed number in two's complement that the first two
/// bytes of `buf` hold, highest byte first. It panics on a shorter `buf`.
#[verifier::external_body]
fn be_read_i16(buf: &[u8]) -> (value: i16)
    requires
        buf.len() >= 2,
    ensures
        value == to_signed(be_u16(buf@), 0x1_0000),
{
    BigEndian::read_i16(buf)
}

/// `LittleEndian::read_i32` of byteorder: the signed number in two's complement that the first four
/// bytes of `buf` hold, lowest byte first. It panics on a shorter `buf`.
#[verifier::external_body]
fn le_read_i32(buf: &[u8]) -> (value: i32)
    requires
        buf.len() >= 4,
    ensures
        value == to_signed(le_u32(buf@), 0x1_0000_0000),
{
    LittleEndian::read_i32(buf)
}

/// `BigEndian::read_i32` of byteorder: the signed number in two's complement that the first four
/// bytes of `buf` hold, highest byte first. It panics on a shorter `buf`.
#[verifier::external_body]
fn be_read_i32(buf: &[u8]) -> (value: i32)
    requires
        buf.len() >= 4,
    ensures
        value == to_signed(be_u32(buf@), 0x1_0000_0000),
{
    BigEndian::read_i32(buf)
}

/// The number that the first two bytes of `buf` hold in the given order.
pub fn read_u16(order: TIFFByteOrder, buf: &[u8]) -> (value: u16)
    requires
        buf.len() >= 2,
    ensures
        value == spec_u16(order, buf@),
{
    match order {
        TIFFByteOrder::LittleEndian => le_read_u16(buf),
        TIFFByteOrder::BigEndian => be_read_u16(buf),
    }
}

/// The number that the first four bytes of `buf` hold in the given order.
pub fn read_u32(order: TIFFByteOrder, buf: &[u8]) -> (value: u32)
    requires
        buf.len() >= 4,
    ensures
        value == spec_u32(order, buf@),
{
    match order {
        TIFFByteOrder::LittleEndian => le_read_u32(buf),
        TIFFByteOrder::BigEndian => be_read_u32(buf),
    }
}

/// The number that the first eight bytes of `buf` hold in the given order.
pub fn read_u64(order: TIFFByteOrder, buf: &[u8]) -> (value: u64)
    requires
        buf.len() >= 8,
    ensures
        value == spec_u64(order, buf@),
{
    match order {
        TIFFByteOrder::LittleEndian => le_read_u64(buf),
        TIFFByteOrder::BigEndian => be_read_u64(buf),
    }
}

/// The signed number that the first two bytes of `buf` hold in the given order.
pub fn read_i16(order: TIFFByteOrder, buf: &[u8]) -> (value: i16)
    requires
        buf.len() >= 2,
    ensures
        value == to_signed(spec_u16(order, buf@), 0x1_0000),
{
    match order {
        TIFFByteOrder::LittleEndian => le_read_i16(buf),
        TIFFByteOrder::BigEndian => be_read_i16(buf),
    }
}

/// The signed number that the first four bytes of `buf` hold in the given order.
pub fn read_i32(order: TIFFByteOrder, buf: &[u8]) -> (value: i32)
    requires
        buf.len() >= 4,
    ensures
        value == to_signed(spec_u32(order, buf@), 0x1_0000_0000),
{
    match order {
        TIFFByteOrder::LittleEndian => le_read_i32(buf),
        TIFFByteOrder::BigEndian => be_read_i32(buf),
    }
}

} // verus!
