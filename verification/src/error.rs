//! The library's error taxonomy.

use vstd::prelude::*;

verus! {

/// Why a backup operation failed.
///
/// Each variant carries a human-readable message; callers distinguish the
/// failure classes by variant alone.
#[derive(Debug, Clone)]
pub enum Error {
    /// A file, directory, or stream could not be read or written.
    Io(String),
    /// A container's bytes do not have the expected shape: the header could
    /// not be parsed, or the lengths it declares disagree with the data.
    Format(String),
    /// A metadata block could not be encoded or decoded.
    Encoding(String),
    /// The compressor or decompressor rejected a byte stream.
    Compression(String),
}

impl Error {
    /// True of the I/O variant.
    pub fn is_io(&self) -> (r: bool)
        ensures
            r == (self is Io),
    {
        match self {
            Error::Io(_) => true,
            _ => false,
        }
    }

    /// True of the format-violation variant.
    pub fn is_format(&self) -> (r: bool)
        ensures
            r == (self is Format),
    {
        match self {
            Error::Format(_) => true,
            _ => false,
        }
    }

    /// True of the metadata-encoding variant.
    pub fn is_encoding(&self) -> (r: bool)
        ensures
            r == (self is Encoding),
    {
        match self {
            Error::Encoding(_) => true,
            _ => false,
        }
    }

    /// True of the compression variant.
    pub fn is_compression(&self) -> (r: bool)
        ensures
            r == (self is Compression),
    {
        match self {
            Error::Compression(_) => true,
            _ => false,
        }
    }

    /// The message carried by this error.
    pub fn message(&self) -> (r: &String) {
        match self {
            Error::Io(m) => m,
            Error::Format(m) => m,
            Error::Encoding(m) => m,
            Error::Compression(m) => m,
        }
    }
}

} // verus!
