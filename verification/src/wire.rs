//! Little-endian fields inside fixed-layout records.

use vstd::bytes::*;
use vstd::slice::slice_subrange;
use vstd::prelude::*;

verus! {

/// The eight bytes at `offset` of `s`, read as a little-endian integer.
pub open spec fn u64_at(s: Seq<u8>, offset: int) -> u64 {
    spec_u64_from_le_bytes(s.subrange(offset, offset + 8))
}

/// `s` with the eight bytes at `offset` replaced by `value`, little-endian.
pub open spec fn with_u64_at(s: Seq<u8>, offset: int, value: u64) -> Seq<u8> {
    s.subrange(0, offset) + spec_u64_to_le_bytes(value) + s.subrange(offset + 8, s.len() as int)
}

/// Reads the little-endian integer that starts at `offset`.
pub fn read_u64(input: &[u8], offset: usize) -> (value: u64)
    requires
        offset + 8 <= input@.len(),
    ensures
        value == u64_at(input@, offset as int),
{
    let len = input.len();
    assert(offset + 8 <= len);
    u64_from_le_bytes(slice_subrange(input, offset, offset + 8))
}

/// Writes `value` as eight little-endian bytes starting at `offset` and leaves
/// every other byte as it was.
pub fn write_u64(output: &mut [u8], offset: usize, value: u64)
    requires
        offset + 8 <= old(output)@.len(),
    ensures
        final(output)@ == with_u64_at(old(output)@, offset as int, value),
        final(output)@.len() == old(output)@.len(),
{
    let len = output.len();
    assert(offset + 8 <= len);
    let bytes = u64_to_le_bytes(value);
    let ghost before = output@;
    let mut i: usize = 0;
    while i < 8
        invariant
            i <= 8,
            bytes@ == spec_u64_to_le_bytes(value),
            bytes@.len() == 8,
            offset + 8 <= before.len(),
            before.len() == len,
            output@.len() == before.len(),
            forall|k: int| 0 <= k < offset ==> output@[k] == before[k],
            forall|k: int| offset + 8 <= k < before.len() ==> output@[k] == before[k],
            forall|k: int| 0 <= k < i ==> output@[offset + k] == bytes@[k],
        decreases 8 - i,
    {
        output[offset + i] = bytes[i];
        i += 1;
    }
    assert(output@ =~= with_u64_at(before, offset as int, value));
}

/// A buffer of `len` zero bytes.
pub open spec fn zeros(len: nat) -> Seq<u8> {
    Seq::new(len, |i: int| 0u8)
}

/// Tells whether two buffers hold the same bytes.
pub fn bytes_equal(a: &[u8], b: &[u8]) -> (equal: bool)
    ensures
        equal == (a@ == b@),
{
    if a.len() != b.len() {
        return false;
    }
    let mut i: usize = 0;
    while i < a.len()
        invariant
            i <= a@.len(),
            a@.len() == b@.len(),
            forall|k: int| 0 <= k < i ==> a@[k] == b@[k],
        decreases a@.len() - i,
    {
        if a[i] != b[i] {
            return false;
        }
        i += 1;
    }
    assert(a@ =~= b@);
    true
}

/// What was written at an offset is read back from it.
pub proof fn lemma_read_written(s: Seq<u8>, offset: int, value: u64)
    requires
        0 <= offset,
        offset + 8 <= s.len(),
    ensures
        u64_at(with_u64_at(s, offset, value), offset) == value,
        with_u64_at(s, offset, value).len() == s.len(),
{
    lemma_auto_spec_u64_to_from_le_bytes();
    assert(with_u64_at(s, offset, value).subrange(offset, offset + 8) =~= spec_u64_to_le_bytes(
        value,
    ));
}

/// A field that starts a buffer is read back from it, whatever follows.
pub proof fn lemma_read_first(value: u64, rest: Seq<u8>)
    ensures
        u64_at(spec_u64_to_le_bytes(value) + rest, 0) == value,
        spec_u64_to_le_bytes(value).len() == 8,
{
    lemma_auto_spec_u64_to_from_le_bytes();
    assert((spec_u64_to_le_bytes(value) + rest).subrange(0, 8) =~= spec_u64_to_le_bytes(value));
}

/// Reading at an offset behind a prefix is reading the rest at the offset
/// less the prefix.
pub proof fn lemma_read_behind(prefix: Seq<u8>, rest: Seq<u8>, offset: int)
    requires
        0 <= offset,
        offset + 8 <= rest.len(),
    ensures
        u64_at(prefix + rest, prefix.len() + offset) == u64_at(rest, offset),
{
    assert((prefix + rest).subrange(prefix.len() + offset, prefix.len() + offset + 8)
        =~= rest.subrange(offset, offset + 8));
}

} // verus!
