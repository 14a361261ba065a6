//! Bounds-checked access to a packet's byte range.
//!
//! Every read of packet memory in this library is guarded by `ptr_at`: it
//! hands back a read location only when the requested span provably lies
//! inside the byte range, and the reads themselves demand that proof in
//! their preconditions.

use vstd::prelude::*;

verus! {

/// Yield a read location for `size` bytes at `offset` into the byte range,
/// or fail when any part of that span would fall outside it.
///
/// Success is owed exactly when `offset + size` fits inside the range; the
/// location returned is `offset` itself, now known safe for `size` bytes.
pub fn ptr_at(pkt: &[u8], offset: usize, size: usize) -> (r: Result<usize, ()>)
    ensures
        r is Ok <==> offset + size <= pkt@.len(),
        r is Ok ==> r->Ok_0 == offset,
{
    if offset <= pkt.len() && size <= pkt.len() - offset {
        Ok(offset)
    } else {
        Err(())
    }
}

/// The big-endian 16-bit value formed by the two bytes at `off`.
pub open spec fn spec_u16_be_at(pkt: Seq<u8>, off: int) -> u16
    recommends
        0 <= off,
        off + 2 <= pkt.len(),
{
    ((pkt[off] as u16) << 8) | (pkt[off + 1] as u16)
}

/// The little-endian 64-bit value formed by the eight bytes at `off`.
pub open spec fn spec_u64_le_at(pkt: Seq<u8>, off: int) -> u64
    recommends
        0 <= off,
        off + 8 <= pkt.len(),
{
    vstd::bytes::spec_u64_from_le_bytes(pkt.subrange(off, off + 8))
}

/// Read one byte at `off`; the caller must already hold the bounds proof.
pub fn read_u8(pkt: &[u8], off: usize) -> (r: u8)
    requires
        off < pkt@.len(),
    ensures
        r == pkt@[off as int],
{
    pkt[off]
}

/// Read a big-endian 16-bit value at `off`; the caller must already hold
/// the bounds proof.
pub fn read_u16_be(pkt: &[u8], off: usize) -> (r: u16)
    requires
        off + 2 <= pkt@.len(),
    ensures
        r == spec_u16_be_at(pkt@, off as int),
{
    let hi = pkt[off];
    let lo = pkt[off + 1];
    ((hi as u16) << 8) | (lo as u16)
}

/// Read a little-endian 64-bit value at `off`; the caller must already hold
/// the bounds proof.
pub fn read_u64_le(pkt: &[u8], off: usize) -> (r: u64)
    requires
        off + 8 <= pkt@.len(),
    ensures
        r == spec_u64_le_at(pkt@, off as int),
{
    // The range's length is a machine word, so `off + 8` cannot wrap.
    let n: usize = pkt.len();
    assert(off + 8 <= n);
    let bytes = &pkt[off..off + 8];
    vstd::bytes::u64_from_le_bytes(bytes)
}

} // verus!
