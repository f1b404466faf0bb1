//! Byte-level helpers: comparing fixed-size keys and encoding integers.

use vstd::prelude::*;

verus! {

/// Whether two 32-byte keys hold the same bytes.
pub fn same_key(a: &[u8; 32], b: &[u8; 32]) -> (same: bool)
    ensures
        same == (a@ == b@),
{
    let mut i: usize = 0;
    while i < 32
        invariant
            i <= 32,
            forall|j: int| 0 <= j < i ==> a@[j] == b@[j],
        decreases 32 - i,
    {
        if a[i] != b[i] {
            return false;
        }
        i += 1;
    }
    assert(a@ =~= b@);
    true
}

/// The bytes of a fixed-size array as a vector.
pub fn array_bytes<const N: usize>(array: &[u8; N]) -> (bytes: Vec<u8>)
    ensures
        bytes@ == array@,
{
    let mut bytes: Vec<u8> = Vec::new();
    let mut i: usize = 0;
    while i < N
        invariant
            i <= N,
            array@.len() == N,
            bytes@ == array@.subrange(0, i as int),
        decreases N - i,
    {
        bytes.push(array[i]);
        i += 1;
        assert(bytes@ =~= array@.subrange(0, i as int));
    }
    assert(array@.subrange(0, N as int) =~= array@);
    bytes
}

/// A copy of a byte vector.
pub fn copy_bytes(source: &Vec<u8>) -> (bytes: Vec<u8>)
    ensures
        bytes@ == source@,
{
    let mut bytes: Vec<u8> = Vec::new();
    let mut i: usize = 0;
    while i < source.len()
        invariant
            i <= source.len(),
            bytes@ == source@.subrange(0, i as int),
        decreases source.len() - i,
    {
        bytes.push(source[i]);
        i += 1;
        assert(bytes@ =~= source@.subrange(0, i as int));
    }
    assert(source@.subrange(0, source.len() as int) =~= source@);
    bytes
}

/// A copy of a list of 20-byte guardian keys.
pub fn copy_keys(source: &Vec<[u8; 20]>) -> (keys: Vec<[u8; 20]>)
    ensures
        keys@ == source@,
{
    let mut keys: Vec<[u8; 20]> = Vec::new();
    let mut i: usize = 0;
    while i < source.len()
        invariant
            i <= source.len(),
            keys@ == source@.subrange(0, i as int),
        decreases source.len() - i,
    {
        keys.push(source[i]);
        i += 1;
        assert(keys@ =~= source@.subrange(0, i as int));
    }
    assert(source@.subrange(0, source.len() as int) =~= source@);
    keys
}

/// The two bytes of `x`, most significant first.
pub open spec fn be_bytes_u16(x: u16) -> Seq<u8> {
    seq![(x >> 8) as u8, (x & 0xff) as u8]
}

/// The four bytes of `x`, most significant first.
pub open spec fn be_bytes_u32(x: u32) -> Seq<u8> {
    seq![(x >> 24) as u8, ((x >> 16) & 0xff) as u8, ((x >> 8) & 0xff) as u8, (x & 0xff) as u8]
}

/// The eight bytes of `x`, most significant first.
pub open spec fn be_bytes_u64(x: u64) -> Seq<u8> {
    seq![
        (x >> 56) as u8,
        ((x >> 48) & 0xff) as u8,
        ((x >> 40) & 0xff) as u8,
        ((x >> 32) & 0xff) as u8,
        ((x >> 24) & 0xff) as u8,
        ((x >> 16) & 0xff) as u8,
        ((x >> 8) & 0xff) as u8,
        (x & 0xff) as u8,
    ]
}

/// The eight bytes of `x`, least significant first.
pub open spec fn le_bytes_u64(x: u64) -> Seq<u8> {
    seq![
        (x & 0xff) as u8,
        ((x >> 8) & 0xff) as u8,
        ((x >> 16) & 0xff) as u8,
        ((x >> 24) & 0xff) as u8,
        ((x >> 32) & 0xff) as u8,
        ((x >> 40) & 0xff) as u8,
        ((x >> 48) & 0xff) as u8,
        (x >> 56) as u8,
    ]
}

/// Encodes a `u16` in big-endian order.
pub fn u16_be(x: u16) -> (bytes: Vec<u8>)
    ensures
        bytes@ == be_bytes_u16(x),
{
    assert((x >> 8) <= 0xff) by (bit_vector);
    assert((x & 0xff) <= 0xff) by (bit_vector);
    let bytes = vec![(x >> 8) as u8, (x & 0xff) as u8];
    assert(bytes@ =~= be_bytes_u16(x));
    bytes
}

/// Encodes a `u32` in big-endian order.
pub fn u32_be(x: u32) -> (bytes: Vec<u8>)
    ensures
        bytes@ == be_bytes_u32(x),
{
    assert((x >> 24) <= 0xff) by (bit_vector);
    assert(((x >> 16) & 0xff) <= 0xff) by (bit_vector);
    assert(((x >> 8) & 0xff) <= 0xff) by (bit_vector);
    assert((x & 0xff) <= 0xff) by (bit_vector);
    let bytes = vec![
        (x >> 24) as u8,
        ((x >> 16) & 0xff) as u8,
        ((x >> 8) & 0xff) as u8,
        (x & 0xff) as u8,
    ];
    assert(bytes@ =~= be_bytes_u32(x));
    bytes
}

/// Encodes a `u64` in big-endian order.
pub fn u64_be(x: u64) -> (bytes: Vec<u8>)
    ensures
        bytes@ == be_bytes_u64(x),
{
    assert((x >> 56) <= 0xff) by (bit_vector);
    assert(((x >> 48) & 0xff) <= 0xff) by (bit_vector);
    assert(((x >> 40) & 0xff) <= 0xff) by (bit_vector);
    assert(((x >> 32) & 0xff) <= 0xff) by (bit_vector);
    assert(((x >> 24) & 0xff) <= 0xff) by (bit_vector);
    assert(((x >> 16) & 0xff) <= 0xff) by (bit_vector);
    assert(((x >> 8) & 0xff) <= 0xff) by (bit_vector);
    assert((x & 0xff) <= 0xff) by (bit_vector);
    let bytes = vec![
        (x >> 56) as u8,
        ((x >> 48) & 0xff) as u8,
        ((x >> 40) & 0xff) as u8,
        ((x >> 32) & 0xff) as u8,
        ((x >> 24) & 0xff) as u8,
        ((x >> 16) & 0xff) as u8,
        ((x >> 8) & 0xff) as u8,
        (x & 0xff) as u8,
    ];
    assert(bytes@ =~= be_bytes_u64(x));
    bytes
}

/// Two `u16` with the same big-endian bytes are equal.
pub proof fn be_bytes_u16_injective(x: u16, y: u16)
    requires
        be_bytes_u16(x) == be_bytes_u16(y),
    ensures
        x == y,
{
    assert(be_bytes_u16(x)[0] == be_bytes_u16(y)[0]);
    assert(be_bytes_u16(x)[1] == be_bytes_u16(y)[1]);
    assert(((x >> 8) as u8 == (y >> 8) as u8 && (x & 0xff) as u8 == (y & 0xff) as u8) ==> x == y)
        by (bit_vector);
}

/// Two `u32` with the same big-endian bytes are equal.
pub proof fn be_bytes_u32_injective(x: u32, y: u32)
    requires
        be_bytes_u32(x) == be_bytes_u32(y),
    ensures
        x == y,
{
    assert(be_bytes_u32(x)[0] == be_bytes_u32(y)[0]);
    assert(be_bytes_u32(x)[1] == be_bytes_u32(y)[1]);
    assert(be_bytes_u32(x)[2] == be_bytes_u32(y)[2]);
    assert(be_bytes_u32(x)[3] == be_bytes_u32(y)[3]);
    assert(((x >> 24) as u8 == (y >> 24) as u8 && ((x >> 16) & 0xff) as u8 == ((y >> 16)
        & 0xff) as u8 && ((x >> 8) & 0xff) as u8 == ((y >> 8) & 0xff) as u8 && (x & 0xff) as u8 == (
    y & 0xff) as u8) ==> x == y) by (bit_vector);
}

/// Two `u64` with the same big-endian bytes are equal.
pub proof fn be_bytes_u64_injective(x: u64, y: u64)
    requires
        be_bytes_u64(x) == be_bytes_u64(y),
    ensures
        x == y,
{
    assert(be_bytes_u64(x)[0] == be_bytes_u64(y)[0]);
    assert(be_bytes_u64(x)[1] == be_bytes_u64(y)[1]);
    assert(be_bytes_u64(x)[2] == be_bytes_u64(y)[2]);
    assert(be_bytes_u64(x)[3] == be_bytes_u64(y)[3]);
    assert(be_bytes_u64(x)[4] == be_bytes_u64(y)[4]);
    assert(be_bytes_u64(x)[5] == be_bytes_u64(y)[5]);
    assert(be_bytes_u64(x)[6] == be_bytes_u64(y)[6]);
    assert(be_bytes_u64(x)[7] == be_bytes_u64(y)[7]);
    assert(((x >> 56) as u8 == (y >> 56) as u8 && ((x >> 48) & 0xff) as u8 == ((y >> 48)
        & 0xff) as u8 && ((x >> 40) & 0xff) as u8 == ((y >> 40) & 0xff) as u8 && ((x >> 32)
        & 0xff) as u8 == ((y >> 32) & 0xff) as u8 && ((x >> 24) & 0xff) as u8 == ((y >> 24)
        & 0xff) as u8 && ((x >> 16) & 0xff) as u8 == ((y >> 16) & 0xff) as u8 && ((x >> 8)
        & 0xff) as u8 == ((y >> 8) & 0xff) as u8 && (x & 0xff) as u8 == (y & 0xff) as u8) ==> x
        == y) by (bit_vector);
}

} // verus!
