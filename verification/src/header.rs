//! The fixed-width container header.

use vstd::bytes::{
    lemma_auto_spec_u64_to_from_le_bytes, spec_u64_from_le_bytes, spec_u64_to_le_bytes,
    u64_from_le_bytes, u64_to_le_bytes,
};
use vstd::prelude::*;
use vstd::slice::slice_subrange;

use crate::error::Error;

verus! {

/// The number of bytes a serialized [`FileHeader`] occupies: two 64-bit
/// fields, little-endian, no padding.
pub const HEADER_SIZE: usize = 16;

/// Small, plain data type representing the header of a backup file,
/// declaring the size of the metadata bytes and the size of the file bytes
/// that follow it.
///
/// The two lengths are pinned to 64 bits and a little-endian byte order so
/// that a container keeps its meaning when moved between architectures.
#[derive(Clone, Copy, Debug, PartialEq, Eq, Structural, PartialOrd, Ord, Hash)]
pub struct FileHeader {
    /// The size of the metadata bytes that follow the header.
    pub meta_size: u64,
    /// The size of the file bytes that follow the metadata bytes.
    pub file_size: u64,
}

/// The serialized form of a header: `meta_size` then `file_size`, each as
/// eight little-endian bytes.
pub open spec fn spec_header_bytes(h: FileHeader) -> Seq<u8> {
    spec_u64_to_le_bytes(h.meta_size) + spec_u64_to_le_bytes(h.file_size)
}

/// The header read back from a 16-byte serialized form.
pub open spec fn spec_header_from_bytes(s: Seq<u8>) -> FileHeader
    recommends
        s.len() == HEADER_SIZE,
{
    FileHeader {
        meta_size: spec_u64_from_le_bytes(s.subrange(0, 8)),
        file_size: spec_u64_from_le_bytes(s.subrange(8, 16)),
    }
}

/// Serializing a header and reading it back yields the header unchanged:
/// the header layout loses nothing.
pub proof fn lemma_header_bytes_roundtrip(h: FileHeader)
    ensures
        spec_header_bytes(h).len() == HEADER_SIZE,
        spec_header_from_bytes(spec_header_bytes(h)) == h,
{
    lemma_auto_spec_u64_to_from_le_bytes();
    let hb = spec_header_bytes(h);
    assert(hb.subrange(0, 8) =~= spec_u64_to_le_bytes(h.meta_size));
    assert(hb.subrange(8, 16) =~= spec_u64_to_le_bytes(h.file_size));
}

/// The header layout is canonical: every 16-byte sequence is exactly the
/// serialization of the header read from it.
pub proof fn lemma_header_bytes_canonical(s: Seq<u8>)
    requires
        s.len() == HEADER_SIZE,
    ensures
        spec_header_bytes(spec_header_from_bytes(s)) == s,
{
    lemma_auto_spec_u64_to_from_le_bytes();
    let g = spec_header_from_bytes(s);
    assert(spec_header_bytes(g) =~= s);
}

impl FileHeader {
    /// Create a new [`FileHeader`] with the given metadata size and file
    /// size.
    pub fn new(meta_size: u64, file_size: u64) -> (r: Self)
        ensures
            r == (FileHeader { meta_size, file_size }),
    {
        Self { meta_size, file_size }
    }

    /// Serializes this header into its 16-byte form.
    pub fn to_bytes(&self) -> (r: Vec<u8>)
        ensures
            r@ == spec_header_bytes(*self),
            r@.len() == HEADER_SIZE,
    {
        proof {
            lemma_auto_spec_u64_to_from_le_bytes();
        }
        let mut out = u64_to_le_bytes(self.meta_size);
        let mut tail = u64_to_le_bytes(self.file_size);
        out.append(&mut tail);
        assert(out@ =~= spec_header_bytes(*self));
        out
    }

    /// Attempts to extract a [`FileHeader`] from the given byte slice.
    /// This version accepts **only** a slice of exactly [`HEADER_SIZE`]
    /// bytes; any other length is a format error.
    pub fn try_from_bytes_exact(bytes: &[u8]) -> (r: Result<Self, Error>)
        ensures
            match r {
                Ok(h) => bytes@.len() == HEADER_SIZE && h == spec_header_from_bytes(bytes@),
                Err(e) => bytes@.len() != HEADER_SIZE && e is Format,
            },
    {
        if bytes.len() != HEADER_SIZE {
            return Err(Error::Format("header slice does not have the exact header width".to_owned()));
        }
        let meta_size = u64_from_le_bytes(slice_subrange(bytes, 0, 8));
        let file_size = u64_from_le_bytes(slice_subrange(bytes, 8, 16));
        Ok(Self { meta_size, file_size })
    }

    /// Attempts to extract a [`FileHeader`] from the front of the given
    /// byte slice, returning the header and the remaining bytes.  Fails
    /// with a format error if fewer than [`HEADER_SIZE`] bytes are
    /// available.
    pub fn try_from_bytes<'a>(bytes: &'a [u8]) -> (r: Result<(Self, &'a [u8]), Error>)
        ensures
            match r {
                Ok(p) => {
                    &&& bytes@.len() >= HEADER_SIZE
                    &&& p.0 == spec_header_from_bytes(bytes@.subrange(0, HEADER_SIZE as int))
                    &&& p.1@ == bytes@.subrange(HEADER_SIZE as int, bytes@.len() as int)
                },
                Err(e) => bytes@.len() < HEADER_SIZE && e is Format,
            },
    {
        if bytes.len() < HEADER_SIZE {
            return Err(Error::Format("too few bytes for a header".to_owned()));
        }
        let head = slice_subrange(bytes, 0, HEADER_SIZE);
        let tail = slice_subrange(bytes, HEADER_SIZE, bytes.len());
        let meta_size = u64_from_le_bytes(slice_subrange(head, 0, 8));
        let file_size = u64_from_le_bytes(slice_subrange(head, 8, 16));
        proof {
            assert(head@.subrange(0, 8) =~= bytes@.subrange(0, 8));
            assert(head@.subrange(8, 16) =~= bytes@.subrange(8, 16));
            assert(bytes@.subrange(0, 16).subrange(0, 8) =~= bytes@.subrange(0, 8));
            assert(bytes@.subrange(0, 16).subrange(8, 16) =~= bytes@.subrange(8, 16));
        }
        Ok((Self { meta_size, file_size }, tail))
    }
}

} // verus!
