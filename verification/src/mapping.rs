//! Trusted boundary to the memory-mapping and file machinery.
//!
//! The segment keeps its bytes in a `memmap2` mapping — mutable for writable
//! segments, immutable for read-only ones — and keeps the backing
//! `tokio::fs::File` open so the descriptor cannot be closed under the
//! mapping.  Those types are opaque here; what a mapping holds is modelled
//! as a sequence of bytes, and each operation the segment logic needs is a
//! small wrapper whose contract states what the operation does to that
//! sequence.

use vstd::prelude::*;

verus! {

/// Declares `memmap2::MmapMut`, the mutable memory mapping a writable
/// segment owns.
#[verifier::external_type_specification]
#[verifier::external_body]
pub struct ExMmapMut(memmap2::MmapMut);

/// Declares `memmap2::Mmap`, the immutable memory mapping a read-only
/// segment owns.
#[verifier::external_type_specification]
#[verifier::external_body]
pub struct ExMmap(memmap2::Mmap);

/// Declares `tokio::fs::File`, the open backing file a segment keeps alive
/// for the lifetime of its mapping.
#[verifier::external_type_specification]
#[verifier::external_body]
pub struct ExFile(tokio::fs::File);

/// Declares `std::io::Error`, the error the mapping operations report.
#[verifier::external_type_specification]
#[verifier::external_body]
pub struct ExIoError(std::io::Error);

/// The bytes a mutable mapping holds.
pub uninterp spec fn mmap_mut_bytes(m: memmap2::MmapMut) -> Seq<u8>;

/// The bytes an immutable mapping holds.
pub uninterp spec fn mmap_bytes(m: memmap2::Mmap) -> Seq<u8>;

/// `s` with `d` written over its bytes starting at `off`; bytes outside the
/// written window keep their old values.
pub open spec fn write_bytes(s: Seq<u8>, off: int, d: Seq<u8>) -> Seq<u8> {
    Seq::new(s.len(), |i: int| if off <= i < off + d.len() { d[i - off] } else { s[i] })
}

/// Relies on `memmap2::MmapMut`'s slice view (`Deref<Target = [u8]>`): the
/// length of the slice is the length of the mapped region.
#[verifier::external_body]
pub fn mm_len(m: &memmap2::MmapMut) -> (r: usize)
    ensures
        r == mmap_mut_bytes(*m).len(),
{
    m.len()
}

/// Relies on `memmap2::MmapMut`'s mutable slice view: writing through the
/// slice stores the given bytes at the given offset and touches nothing
/// else.
#[verifier::external_body]
pub fn mm_write(m: &mut memmap2::MmapMut, offset: usize, data: &[u8])
    requires
        offset + data@.len() <= mmap_mut_bytes(*old(m)).len(),
    ensures
        mmap_mut_bytes(*final(m)) == write_bytes(mmap_mut_bytes(*old(m)), offset as int, data@),
{
    m[offset..offset + data.len()].copy_from_slice(data);
}

/// Relies on `memmap2::MmapMut`'s slice view: reading a window of the slice
/// returns exactly the mapped bytes in that window.
#[verifier::external_body]
pub fn mm_read(m: &memmap2::MmapMut, offset: usize, len: usize) -> (r: Vec<u8>)
    requires
        offset + len <= mmap_mut_bytes(*m).len(),
    ensures
        r@ == mmap_mut_bytes(*m).subrange(offset as int, offset as int + len as int),
{
    m[offset..offset + len].to_vec()
}

/// Relies on `memmap2::MmapMut::flush`: synchronously writes the mapped
/// region back to the file, reporting any failure of the underlying system
/// call.  Whether it succeeds depends on the operating system, so nothing is
/// promised of the outcome.
#[verifier::external_body]
pub fn mm_flush(m: &memmap2::MmapMut) -> (r: Result<(), std::io::Error>)
{
    m.flush()
}

/// Relies on `memmap2::Mmap`'s slice view: the length of the slice is the
/// length of the mapped region.
#[verifier::external_body]
pub fn ro_len(m: &memmap2::Mmap) -> (r: usize)
    ensures
        r == mmap_bytes(*m).len(),
{
    m.len()
}

/// Relies on `memmap2::Mmap`'s slice view (`Deref<Target = [u8]>`): the
/// slice is exactly the mapped bytes.
#[verifier::external_body]
pub fn ro_slice(m: &memmap2::Mmap) -> (r: &[u8])
    ensures
        r@ == mmap_bytes(*m),
{
    &m[..]
}

/// Relies on `std::fmt::Display` for `std::io::Error`: renders the error for
/// diagnostics.  The text is unspecified.
#[verifier::external_body]
pub fn io_error_text(e: &std::io::Error) -> (r: String)
{
    e.to_string()
}

/// Writing a window and reading the same window back yields exactly the
/// bytes that were written.
pub proof fn lemma_write_read_roundtrip(s: Seq<u8>, off: int, d: Seq<u8>)
    requires
        0 <= off,
        off + d.len() <= s.len(),
    ensures
        write_bytes(s, off, d).subrange(off, off + d.len()) == d,
{
    assert(write_bytes(s, off, d).subrange(off, off + d.len()) =~= d);
}

/// Writing leaves every byte outside the written window unchanged, and
/// keeps the region's length.
pub proof fn lemma_write_preserves_rest(s: Seq<u8>, off: int, d: Seq<u8>)
    requires
        0 <= off,
        off + d.len() <= s.len(),
    ensures
        write_bytes(s, off, d).len() == s.len(),
        forall|i: int|
            0 <= i < s.len() && !(off <= i < off + d.len()) ==> write_bytes(s, off, d)[i] == s[i],
{
}

} // verus!
