//! A point-in-time, versioned, compressed file backup library.
//!
//! A backup is a *container*: a fixed-width header declaring the byte lengths
//! of the two blocks that follow it, a metadata record describing the source
//! file, and the raw file bytes.  Containers are compressed before they are
//! persisted, and a store directory of compressed containers can be indexed
//! by reading only each file's leading bytes.

pub mod backup;
pub mod bits;
pub mod config;
pub mod error;
pub mod fs;
pub mod header;
pub mod id_gen;
pub mod iter;
pub mod meta;
pub mod path;
pub mod permutations;
pub mod time;
pub mod version;

pub use backup::{extract_header_and_meta, parse_container, BackupFile, BackupInfo, BackupManager,
    CompressedBackupFile, StoreFile};
pub use bits::align_up;
pub use config::{Config, MaybeConfig};
pub use error::Error;
pub use fs::WalkDirOptions;
pub use header::FileHeader;
pub use id_gen::{Gen, IdAllocator};
pub use iter::all_equal;
pub use meta::{decode_meta, encode_meta, FileKind, FileMeta, FsMetadata};
pub use path::clean;
pub use permutations::{argsort, inverse_argsort, invert};
pub use time::{current_timestamp, Timestamp};
pub use version::saturating::FileVersion;
pub use version::saturating::FileVersion as SaturatingFileVersion;
pub use version::wrapping::FileVersion as WrappingFileVersion;
