//! The mapped region, seen as a sequence of bytes.

use vstd::prelude::*;

verus! {

#[verifier::external_type_specification]
#[verifier::external_body]
pub struct ExMmapMut(memmap::MmapMut);

/// The bytes that a mutable memory map currently holds, one per offset.
pub uninterp spec fn mapped_bytes(m: memmap::MmapMut) -> Seq<u8>;

/// Relies on `MmapMut`'s `Deref` to `[u8]`: the slice's length is the map's length.
#[verifier::external_body]
pub(crate) fn mapped_len(m: &memmap::MmapMut) -> (r: usize)
    ensures
        r == mapped_bytes(*m).len(),
{
    m.len()
}

/// Relies on `MmapMut`'s `Deref` to `[u8]`: the first `n` bytes of the map.
/// They must lie within the backing file's `file_len` bytes, since reading a
/// mapped page past the end of the file faults.
#[verifier::external_body]
#[allow(unused_variables)]
pub(crate) fn mapped_prefix(m: &memmap::MmapMut, n: usize, file_len: usize) -> (r: &[u8])
    requires
        n <= mapped_bytes(*m).len(),
        n <= file_len,
    ensures
        r@ == mapped_bytes(*m).subrange(0, n as int),
{
    &m[..n]
}

/// Relies on `MmapMut`'s `DerefMut` to `[u8]`: copies `data` into the map at
/// offset `at`, leaving every other byte as it was. The bytes written must
/// lie within the backing file's `file_len` bytes, since writing a mapped page
/// past the end of the file faults.
#[verifier::external_body]
#[allow(unused_variables)]
pub(crate) fn write_at(m: &mut memmap::MmapMut, at: usize, data: &[u8], file_len: usize)
    requires
        at + data@.len() <= mapped_bytes(*old(m)).len(),
        at + data@.len() <= file_len,
    ensures
        mapped_bytes(*final(m)) == mapped_bytes(*old(m)).subrange(0, at as int) + data@
            + mapped_bytes(*old(m)).subrange(at + data@.len(), mapped_bytes(*old(m)).len() as int),
{
    m[at..][..data.len()].copy_from_slice(data)
}

/// Relies on `MmapMut::flush`: tells whether the map's changes reached durable
/// storage. Flushing does not change the mapped bytes.
#[verifier::external_body]
pub(crate) fn flush(m: &memmap::MmapMut) -> (r: bool)
{
    m.flush().is_ok()
}

} // verus!
