//! Little-endian encodings shared by the record layout and the instruction
//! decoder.  Unsigned fields use vstd's byte conversions directly; signed
//! 64-bit fields go through the two's-complement bijection below.

use vstd::prelude::*;
use vstd::bytes::*;

verus! {

/// The unsigned number with the same 64-bit two's-complement representation.
pub open spec fn spec_u64_of_i64(x: i64) -> u64 {
    if x >= 0 {
        x as u64
    } else {
        (x + 0x1_0000_0000_0000_0000) as u64
    }
}

/// Inverse of `spec_u64_of_i64`.
pub open spec fn spec_i64_of_u64(x: u64) -> i64 {
    if x <= i64::MAX as u64 {
        x as i64
    } else {
        (x - 0x1_0000_0000_0000_0000) as i64
    }
}

pub proof fn lemma_i64_u64_roundtrip(x: i64)
    ensures
        spec_i64_of_u64(spec_u64_of_i64(x)) == x,
{
}

pub proof fn lemma_u64_i64_roundtrip(x: u64)
    ensures
        spec_u64_of_i64(spec_i64_of_u64(x)) == x,
{
}

/// Two's-complement little-endian encoding of a signed 64-bit value.
pub open spec fn spec_i64_to_le_bytes(x: i64) -> Seq<u8> {
    spec_u64_to_le_bytes(spec_u64_of_i64(x))
}

/// Inverse of `spec_i64_to_le_bytes` on 8-byte sequences.
pub open spec fn spec_i64_from_le_bytes(s: Seq<u8>) -> i64 {
    spec_i64_of_u64(spec_u64_from_le_bytes(s))
}

pub proof fn lemma_i64_le_bytes_roundtrip(x: i64)
    ensures
        spec_i64_to_le_bytes(x).len() == 8,
        spec_i64_from_le_bytes(spec_i64_to_le_bytes(x)) == x,
{
    lemma_auto_spec_u64_to_from_le_bytes();
    lemma_i64_u64_roundtrip(x);
}

pub fn u64_of_i64(x: i64) -> (r: u64)
    ensures
        r == spec_u64_of_i64(x),
{
    if x >= 0 {
        x as u64
    } else {
        u64::MAX - ((-(x + 1)) as u64)
    }
}

pub fn i64_of_u64(x: u64) -> (r: i64)
    ensures
        r == spec_i64_of_u64(x),
{
    if x <= i64::MAX as u64 {
        x as i64
    } else {
        -((u64::MAX - x) as i64) - 1
    }
}

pub fn i64_to_le_bytes(x: i64) -> (s: Vec<u8>)
    ensures
        s@ == spec_i64_to_le_bytes(x),
        s@.len() == 8,
{
    let u: u64 = u64_of_i64(x);
    u64_to_le_bytes(u)
}

pub fn i64_from_le_bytes(s: &[u8]) -> (x: i64)
    requires
        s@.len() == 8,
    ensures
        x == spec_i64_from_le_bytes(s@),
{
    let u: u64 = u64_from_le_bytes(s);
    i64_of_u64(u)
}

} // verus!
