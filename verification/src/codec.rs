//! Little-endian decoding of a disclosed 32-bit value.
//!
//! The engine discloses an opened secret variable as raw bytes; the
//! contract's public result type is `u32`.  This is the only
//! representation-sensitive logic in the core: the decoder must reject a
//! byte string of the wrong length rather than truncate or pad.

use vstd::prelude::*;

verus! {

/// The disclosed value's byte length did not match the expected fixed
/// width of four bytes.  The value cannot be trusted; the invocation
/// must be aborted by the host.
#[derive(Clone, Copy, PartialEq, Eq, Structural, Debug)]
pub struct DecodeError {
    /// The byte length that was actually observed.
    pub observed_length: usize,
}

/// The unsigned 32-bit value denoted by four bytes read little-endian.
pub open spec fn le32_value(b0: u8, b1: u8, b2: u8, b3: u8) -> u32 {
    (b0 as u32) | ((b1 as u32) << 8) | ((b2 as u32) << 16) | ((b3 as u32) << 24)
}

/// The unsigned 32-bit value denoted by a four-byte sequence read
/// little-endian.
pub open spec fn le32_of(bytes: Seq<u8>) -> u32
    recommends
        bytes.len() == 4,
{
    le32_value(bytes[0], bytes[1], bytes[2], bytes[3])
}

/// The four little-endian bytes of an unsigned 32-bit value.
pub open spec fn le32_bytes_of(value: u32) -> Seq<u8> {
    seq![
        (value & 0xff) as u8,
        ((value >> 8) & 0xff) as u8,
        ((value >> 16) & 0xff) as u8,
        ((value >> 24) & 0xff) as u8,
    ]
}

/// Law: encoding any `u32` to its four little-endian bytes and decoding
/// them again returns the original value.
pub proof fn lemma_le32_round_trip(value: u32)
    ensures
        le32_bytes_of(value).len() == 4,
        le32_of(le32_bytes_of(value)) == value,
{
    let bytes = le32_bytes_of(value);
    assert(le32_value(
        (value & 0xff) as u8,
        ((value >> 8) & 0xff) as u8,
        ((value >> 16) & 0xff) as u8,
        ((value >> 24) & 0xff) as u8,
    ) == value) by (bit_vector);
    assert(bytes[0] == (value & 0xff) as u8);
    assert(bytes[1] == ((value >> 8) & 0xff) as u8);
    assert(bytes[2] == ((value >> 16) & 0xff) as u8);
    assert(bytes[3] == ((value >> 24) & 0xff) as u8);
}

/// Interprets exactly four raw bytes as a little-endian unsigned 32-bit
/// integer.  Any other length is a decode error and yields no value.
pub fn decode_unsigned32_little_endian(bytes: &Vec<u8>) -> (r: Result<u32, DecodeError>)
    ensures
        r is Ok <==> bytes@.len() == 4,
        r matches Ok(value) ==> value == le32_of(bytes@),
        r matches Err(e) ==> e.observed_length == bytes@.len(),
{
    if bytes.len() != 4 {
        return Err(DecodeError { observed_length: bytes.len() });
    }
    let b0 = bytes[0] as u32;
    let b1 = bytes[1] as u32;
    let b2 = bytes[2] as u32;
    let b3 = bytes[3] as u32;
    Ok(b0 | (b1 << 8) | (b2 << 16) | (b3 << 24))
}

/// Encodes an unsigned 32-bit value as its four little-endian bytes.
pub fn encode_unsigned32_little_endian(value: u32) -> (bytes: Vec<u8>)
    ensures
        bytes@ == le32_bytes_of(value),
        bytes@.len() == 4,
{
    assert(value & 0xff < 256 && (value >> 8) & 0xff < 256 && (value >> 16) & 0xff < 256
        && (value >> 24) & 0xff < 256) by (bit_vector);
    let b0 = (value & 0xff) as u8;
    let b1 = ((value >> 8) & 0xff) as u8;
    let b2 = ((value >> 16) & 0xff) as u8;
    let b3 = ((value >> 24) & 0xff) as u8;
    let bytes = vec![b0, b1, b2, b3];
    assert(bytes@ =~= le32_bytes_of(value));
    bytes
}

} // verus!
