use vstd::prelude::*;
use crate::error::{CodecError, Error};

verus! {

/// Size in bytes of an encoded counter.
pub const ENCODED_SIZE: usize = 4;

/// The little-endian bytes of a counter.
pub open spec fn le_bytes(n: u32) -> Seq<u8> {
    seq![
        (n % 256) as u8,
        (n / 256 % 256) as u8,
        (n / 65536 % 256) as u8,
        (n / 16777216) as u8,
    ]
}

/// The counter that four little-endian bytes hold.
pub open spec fn le_value(b: Seq<u8>) -> int
    recommends
        b.len() == 4,
{
    b[0] + 256 * b[1] + 65536 * b[2] + 16777216 * b[3]
}

/// What decoding a payload gives.
pub open spec fn decoded(b: Seq<u8>) -> Result<u32, CodecError> {
    if b.len() == ENCODED_SIZE {
        Ok(le_value(b) as u32)
    } else {
        Err(CodecError::LengthMismatch)
    }
}

/// Encodes a counter as its fixed-size little-endian payload.
pub fn encode(n: u32) -> (r: Vec<u8>)
    ensures
        r@ == le_bytes(n),
        r@.len() == ENCODED_SIZE,
{
    let mut r: Vec<u8> = Vec::new();
    r.push((n % 256) as u8);
    r.push((n / 256 % 256) as u8);
    r.push((n / 65536 % 256) as u8);
    r.push((n / 16777216) as u8);
    assert(r@ =~= le_bytes(n));
    r
}

/// Decodes a counter payload; any length but the fixed size is refused.
pub fn decode(data: &[u8]) -> (r: Result<u32, CodecError>)
    ensures
        r == decoded(data@),
        r is Ok <==> data@.len() == ENCODED_SIZE,
        r matches Ok(v) ==> v as int == le_value(data@),
{
    if data.len() != ENCODED_SIZE {
        return Err(CodecError::LengthMismatch);
    }
    let v: u32 = data[0] as u32 + (data[1] as u32) * 256 + (data[2] as u32) * 65536 + (data[3]
        as u32) * 16777216;
    Ok(v)
}

/// The size of a greeting account's data: the size of an encoded counter.
pub fn get_greeting_data_size() -> (r: Result<usize, Error>)
    ensures
        r == Ok::<usize, Error>(ENCODED_SIZE),
{
    Ok(encode(0).len())
}

/// Reads the greeting counter out of an account's data.
pub fn get_greeting_count(data: &[u8]) -> (r: Result<u32, Error>)
    ensures
        r is Ok <==> data@.len() == ENCODED_SIZE,
        r matches Ok(v) ==> v as int == le_value(data@),
        r matches Err(e) ==> e == Error::Codec(CodecError::LengthMismatch),
{
    match decode(data) {
        Ok(v) => Ok(v),
        Err(e) => Err(Error::Codec(e)),
    }
}

/// Decoding an encoded counter gives the counter back, and the encoding
/// always has the fixed size.
pub proof fn lemma_round_trip(n: u32)
    ensures
        le_bytes(n).len() == ENCODED_SIZE,
        le_value(le_bytes(n)) == n,
        decoded(le_bytes(n)) == Ok::<u32, CodecError>(n),
{
    let b = le_bytes(n);
    assert(b[0] == n % 256);
    assert(b[1] == n / 256 % 256);
    assert(b[2] == n / 65536 % 256);
    assert(b[3] == n / 16777216);
    assert(n % 256 + 256 * (n / 256 % 256) + 65536 * (n / 65536 % 256) + 16777216 * (n
        / 16777216) == n) by (nonlinear_arith);
}

/// Any payload whose length is not the fixed size is refused as a length
/// mismatch.
pub proof fn lemma_wrong_length_refused(b: Seq<u8>)
    requires
        b.len() != ENCODED_SIZE,
    ensures
        decoded(b) == Err::<u32, CodecError>(CodecError::LengthMismatch),
{
}

} // verus!
