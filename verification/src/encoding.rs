//! Little-endian encoding of the scalars and vectors that device records are made of.
//!
//! A real number is carried as the bit pattern of its IEEE 754 single-precision
//! form, in a `u32`. The encoding does not look inside it.

use vstd::prelude::*;

verus! {

/// The four bytes of `value`, least significant first.
pub open spec fn le_bytes(value: u32) -> Seq<u8> {
    seq![
        (value % 256) as u8,
        (value / 256 % 256) as u8,
        (value / 65536 % 256) as u8,
        (value / 16777216) as u8,
    ]
}

/// The number that four little-endian bytes stand for.
pub open spec fn le_value(bytes: Seq<u8>) -> int {
    bytes[0] + 256 * bytes[1] + 65536 * bytes[2] + 16777216 * bytes[3]
}

/// `count` zero bytes: the filler between and after the fields of a record.
pub open spec fn padding(count: nat) -> Seq<u8> {
    Seq::new(count, |i: int| 0u8)
}

/// Decoding undoes encoding, so distinct values have distinct encodings.
pub proof fn lemma_le_bytes_round_trip(value: u32)
    ensures
        le_bytes(value).len() == 4,
        le_value(le_bytes(value)) == value,
{
}

/// Two values with the same encoding are the same value.
pub proof fn lemma_le_bytes_injective(a: u32, b: u32)
    requires
        le_bytes(a) == le_bytes(b),
    ensures
        a == b,
{
    lemma_le_bytes_round_trip(a);
    lemma_le_bytes_round_trip(b);
}

/// Three reals, each as a single-precision bit pattern.
#[derive(Clone, Copy, Debug, PartialEq, Eq, Structural)]
pub struct Vector3 {
    pub x: u32,
    pub y: u32,
    pub z: u32,
}

/// Four reals, each as a single-precision bit pattern.
#[derive(Clone, Copy, Debug, PartialEq, Eq, Structural)]
pub struct Vector4 {
    pub x: u32,
    pub y: u32,
    pub z: u32,
    pub w: u32,
}

impl Vector3 {
    /// Bytes written for the vector.
    pub const SIZE: usize = 12;

    /// The components in order, each little-endian and without gaps.
    pub open spec fn bytes(self) -> Seq<u8> {
        le_bytes(self.x) + le_bytes(self.y) + le_bytes(self.z)
    }

    /// The vector of the three components.
    pub fn new(x: u32, y: u32, z: u32) -> (v: Vector3)
        ensures
            v == (Vector3 { x, y, z }),
    {
        Vector3 { x, y, z }
    }
}

impl Vector4 {
    /// Bytes written for the vector.
    pub const SIZE: usize = 16;

    /// The components in order, each little-endian and without gaps.
    pub open spec fn bytes(self) -> Seq<u8> {
        le_bytes(self.x) + le_bytes(self.y) + le_bytes(self.z) + le_bytes(self.w)
    }

    /// The vector of the four components.
    pub fn new(x: u32, y: u32, z: u32, w: u32) -> (v: Vector4)
        ensures
            v == (Vector4 { x, y, z, w }),
    {
        Vector4 { x, y, z, w }
    }
}

/// Appends the little-endian bytes of `value`.
pub fn put_u32(buffer: &mut Vec<u8>, value: u32)
    ensures
        final(buffer)@ == old(buffer)@ + le_bytes(value),
{
    buffer.push((value % 256) as u8);
    buffer.push((value / 256 % 256) as u8);
    buffer.push((value / 65536 % 256) as u8);
    buffer.push((value / 16777216) as u8);
}

/// Appends `count` zero bytes.
pub fn put_padding(buffer: &mut Vec<u8>, count: usize)
    ensures
        final(buffer)@ == old(buffer)@ + padding(count as nat),
{
    let mut written: usize = 0;
    while written < count
        invariant
            written <= count,
            buffer@ == old(buffer)@ + padding(written as nat),
        decreases count - written,
    {
        buffer.push(0u8);
        written += 1;
    }
}

/// Appends the bytes of a three-component vector.
pub fn put_vector3(buffer: &mut Vec<u8>, v: Vector3)
    ensures
        final(buffer)@ == old(buffer)@ + v.bytes(),
{
    put_u32(buffer, v.x);
    put_u32(buffer, v.y);
    put_u32(buffer, v.z);
}

/// Appends the bytes of a four-component vector.
pub fn put_vector4(buffer: &mut Vec<u8>, v: Vector4)
    ensures
        final(buffer)@ == old(buffer)@ + v.bytes(),
{
    put_u32(buffer, v.x);
    put_u32(buffer, v.y);
    put_u32(buffer, v.z);
    put_u32(buffer, v.w);
}

} // verus!
