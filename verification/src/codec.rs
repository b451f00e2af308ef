//! Reading and writing of little-endian integers and identifiers in byte
//! strings, shared by the wire formats of the pool.

use vstd::prelude::*;
use vstd::bytes::{spec_u64_from_le_bytes, spec_u64_to_le_bytes, u64_from_le_bytes, u64_to_le_bytes};
use vstd::slice::slice_subrange;
use crate::pubkey::Pubkey;

verus! {

/// The 64-bit integer whose little-endian encoding starts at `offset` in `s`.
pub open spec fn u64_at(s: Seq<u8>, offset: int) -> u64 {
    spec_u64_from_le_bytes(s.subrange(offset, offset + 8))
}

/// The 32 bytes that start at `offset` in `s`.
pub open spec fn key_at(s: Seq<u8>, offset: int) -> Seq<u8> {
    s.subrange(offset, offset + 32)
}

/// Reads the 64-bit integer at `offset`.
pub fn read_u64(input: &[u8], offset: usize) -> (r: u64)
    requires
        offset + 8 <= input@.len(),
    ensures
        r == u64_at(input@, offset as int),
{
    let len = input.len();
    assert(offset + 8 <= len);
    u64_from_le_bytes(slice_subrange(input, offset, offset + 8))
}

/// Reads the identifier at `offset`.
pub fn read_key(input: &[u8], offset: usize) -> (r: Pubkey)
    requires
        offset + 32 <= input@.len(),
    ensures
        r@ == key_at(input@, offset as int),
{
    let len = input.len();
    let mut bytes = [0u8; 32];
    let mut i: usize = 0;
    while i < 32
        invariant
            i <= 32,
            offset + 32 <= len,
            len == input@.len(),
            forall|j: int| 0 <= j < i ==> bytes@[j] == input@[offset + j],
        decreases 32 - i,
    {
        bytes[i] = input[offset + i];
        i = i + 1;
    }
    assert(bytes@ =~= key_at(input@, offset as int));
    Pubkey { bytes }
}

/// Appends the little-endian encoding of `value`.
pub fn write_u64(buf: &mut Vec<u8>, value: u64)
    ensures
        final(buf)@ == old(buf)@ + spec_u64_to_le_bytes(value),
{
    let encoded = u64_to_le_bytes(value);
    let ghost before = buf@;
    let mut i: usize = 0;
    while i < 8
        invariant
            i <= 8,
            encoded@.len() == 8,
            buf@ == before + encoded@.subrange(0, i as int),
        decreases 8 - i,
    {
        buf.push(encoded[i]);
        i = i + 1;
        assert(buf@ =~= before + encoded@.subrange(0, i as int));
    }
    assert(encoded@.subrange(0, 8) =~= encoded@);
}

/// Appends the bytes of `key`.
pub fn write_key(buf: &mut Vec<u8>, key: &Pubkey)
    ensures
        final(buf)@ == old(buf)@ + key@,
{
    let ghost before = buf@;
    let mut i: usize = 0;
    while i < 32
        invariant
            i <= 32,
            buf@ == before + key@.subrange(0, i as int),
        decreases 32 - i,
    {
        buf.push(key.bytes[i]);
        i = i + 1;
        assert(buf@ =~= before + key@.subrange(0, i as int));
    }
    assert(key@.subrange(0, 32) =~= key@);
}

/// An integer written between two byte strings is read back at the place
/// where it was written.
pub proof fn lemma_u64_read_back(prefix: Seq<u8>, value: u64, rest: Seq<u8>)
    ensures
        spec_u64_to_le_bytes(value).len() == 8,
        u64_at(prefix + spec_u64_to_le_bytes(value) + rest, prefix.len() as int) == value,
{
    vstd::bytes::lemma_auto_spec_u64_to_from_le_bytes();
    let whole = prefix + spec_u64_to_le_bytes(value) + rest;
    assert(whole.subrange(prefix.len() as int, prefix.len() as int + 8) =~= spec_u64_to_le_bytes(value));
}

/// An identifier written between two byte strings is read back at the place
/// where it was written.
pub proof fn lemma_key_read_back(prefix: Seq<u8>, key: Seq<u8>, rest: Seq<u8>)
    requires
        key.len() == 32,
    ensures
        key_at(prefix + key + rest, prefix.len() as int) == key,
{
    assert((prefix + key + rest).subrange(prefix.len() as int, prefix.len() as int + 32) =~= key);
}

} // verus!
