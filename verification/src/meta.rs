//! The versioned file metadata record, and its byte encoding.
//!
//! A [`FileMeta`] describes one backup's provenance: the backup version,
//! when the backup was taken, the source path, and a snapshot of the
//! source's filesystem attributes.  The record is serialized into a
//! fixed-layout, little-endian block of 48 bytes followed by the raw path
//! bytes; the encoding and its decoder are proved inverse to each other.

use vstd::bytes::{
    lemma_auto_spec_u32_to_from_le_bytes, lemma_auto_spec_u64_to_from_le_bytes,
    spec_u32_from_le_bytes, spec_u32_to_le_bytes, spec_u64_from_le_bytes, spec_u64_to_le_bytes,
    u32_from_le_bytes, u32_to_le_bytes, u64_from_le_bytes, u64_to_le_bytes,
};
use vstd::prelude::*;
use vstd::slice::{slice_index_get, slice_subrange, slice_to_vec};

use crate::error::Error;
use crate::time::Timestamp;
use crate::version::saturating::FileVersion;

verus! {

/// The number of bytes the fixed-layout part of an encoded [`FileMeta`]
/// occupies; the source path's bytes follow it and run to the end of the
/// block.
pub const META_FIXED_SIZE: usize = 48;

/// Types of files.  A closed tag, since platform file types are neither
/// serializable nor exhaustive.
#[derive(Clone, Copy, Debug, PartialEq, Eq, Structural, PartialOrd, Ord, Hash)]
pub enum FileKind {
    /// A file.
    File,
    /// A directory.
    Dir,
    /// A symbolic link.
    Symlink,
    /// Any other type of file.
    Unknown,
}

impl FileKind {
    /// The byte that stands for this kind in an encoded record.
    pub open spec fn spec_tag(self) -> u8 {
        match self {
            FileKind::File => 0u8,
            FileKind::Dir => 1u8,
            FileKind::Symlink => 2u8,
            FileKind::Unknown => 3u8,
        }
    }

    /// The kind a tag byte stands for, if any.
    pub open spec fn spec_from_tag(tag: u8) -> Option<FileKind> {
        if tag == 0u8 {
            Some(FileKind::File)
        } else if tag == 1u8 {
            Some(FileKind::Dir)
        } else if tag == 2u8 {
            Some(FileKind::Symlink)
        } else if tag == 3u8 {
            Some(FileKind::Unknown)
        } else {
            None
        }
    }

    /// Writes this kind as its tag byte.
    pub fn tag(self) -> (r: u8)
        ensures
            r == self.spec_tag(),
            Self::spec_from_tag(r) == Some(self),
    {
        match self {
            FileKind::File => 0u8,
            FileKind::Dir => 1u8,
            FileKind::Symlink => 2u8,
            FileKind::Unknown => 3u8,
        }
    }

    /// Reads a kind back from a tag byte.
    pub fn from_tag(tag: u8) -> (r: Option<FileKind>)
        ensures
            r == Self::spec_from_tag(tag),
    {
        if tag == 0u8 {
            Some(FileKind::File)
        } else if tag == 1u8 {
            Some(FileKind::Dir)
        } else if tag == 2u8 {
            Some(FileKind::Symlink)
        } else if tag == 3u8 {
            Some(FileKind::Unknown)
        } else {
            None
        }
    }
}

/// The mathematical model of a filesystem snapshot: plain seconds-since-
/// epoch values in place of timestamp objects.
pub ghost struct FsMetaModel {
    /// Creation time, if the filesystem exposes one.
    pub created: Option<u64>,
    /// Last modification time, if the filesystem exposes one.
    pub modified: Option<u64>,
    /// Last access time, if the filesystem exposes one.
    pub accessed: Option<u64>,
    /// The source's length in bytes.
    pub size: u64,
    /// What kind of file the source is.
    pub kind: FileKind,
}

/// A serializable snapshot of a file's filesystem attributes.
#[derive(Debug, Copy, Clone, PartialEq, Eq)]
pub struct FsMetadata {
    created: Option<Timestamp>,
    modified: Option<Timestamp>,
    accessed: Option<Timestamp>,
    size: u64,
    file_type: FileKind,
}

/// The seconds a possibly-absent timestamp holds.
pub open spec fn spec_opt_secs(o: Option<Timestamp>) -> Option<u64> {
    match o {
        Some(t) => Some(t@),
        None => None,
    }
}

impl View for FsMetadata {
    type V = FsMetaModel;

    closed spec fn view(&self) -> FsMetaModel {
        FsMetaModel {
            created: spec_opt_secs(self.created),
            modified: spec_opt_secs(self.modified),
            accessed: spec_opt_secs(self.accessed),
            size: self.size,
            kind: self.file_type,
        }
    }
}

impl FsMetadata {
    /// Builds a snapshot from plain attribute values.
    pub fn new(
        created: Option<Timestamp>,
        modified: Option<Timestamp>,
        accessed: Option<Timestamp>,
        size: u64,
        file_type: FileKind,
    ) -> (r: Self)
        ensures
            r@ == (FsMetaModel {
                created: spec_opt_secs(created),
                modified: spec_opt_secs(modified),
                accessed: spec_opt_secs(accessed),
                size,
                kind: file_type,
            }),
    {
        Self { created, modified, accessed, size, file_type }
    }

    /// Gets the creation time of the file if available.
    pub fn created(&self) -> (r: Option<Timestamp>)
        ensures
            spec_opt_secs(r) == self@.created,
    {
        self.created
    }

    /// Gets the last modified time of the file if available.
    pub fn modified(&self) -> (r: Option<Timestamp>)
        ensures
            spec_opt_secs(r) == self@.modified,
    {
        self.modified
    }

    /// Gets the last access time of the file if available.
    pub fn accessed(&self) -> (r: Option<Timestamp>)
        ensures
            spec_opt_secs(r) == self@.accessed,
    {
        self.accessed
    }

    /// Gets the size of the file this metadata represents.
    pub fn size(&self) -> (r: u64)
        ensures
            r == self@.size,
    {
        self.size
    }

    /// Gets the [`FileKind`] of the file this metadata represents.
    pub fn file_type(&self) -> (r: FileKind)
        ensures
            r == self@.kind,
    {
        self.file_type
    }
}

/// The mathematical model of a metadata record.
pub ghost struct MetaModel {
    /// The raw backup version number.
    pub version: u32,
    /// When the backup was created, in seconds since the epoch.
    pub backup_created: u64,
    /// The source path, as raw bytes.
    pub path: Seq<u8>,
    /// The filesystem snapshot taken with the backup.
    pub fs: FsMetaModel,
}

/// The metadata for a backup file.
#[derive(Debug, Clone, PartialEq, Eq)]
pub struct FileMeta {
    /// The backup version.
    version: FileVersion,
    /// When the **backup** was created (*not* the original file).
    backup_created: Timestamp,
    /// The path to the original file, as raw bytes.
    path: Vec<u8>,
    /// The filesystem metadata for the original file at time of backup.
    fs_meta: FsMetadata,
}

impl View for FileMeta {
    type V = MetaModel;

    closed spec fn view(&self) -> MetaModel {
        MetaModel {
            version: self.version.val(),
            backup_created: self.backup_created@,
            path: self.path@,
            fs: self.fs_meta@,
        }
    }
}

impl FileMeta {
    /// Builds a record from its parts.
    pub fn new(version: FileVersion, created: Timestamp, path: Vec<u8>, fs_meta: FsMetadata) -> (r:
        Self)
        ensures
            r@ == (MetaModel {
                version: version.val(),
                backup_created: created@,
                path: path@,
                fs: fs_meta@,
            }),
    {
        Self { version, backup_created: created, path, fs_meta }
    }

    /// Overwrites the embedded filesystem snapshot with `metadata`,
    /// leaving path, version, and backup time untouched.
    pub fn update_from_metadata(&mut self, metadata: FsMetadata)
        ensures
            final(self)@ == (MetaModel { fs: metadata@, ..old(self)@ }),
    {
        self.fs_meta = metadata;
    }

    /// Increments the current file version.  Must not be called on a
    /// record whose version is invalid (zero).
    pub fn bump_version(&mut self)
        requires
            old(self)@.version != 0,
        ensures
            final(self)@ == (MetaModel {
                version: FileVersion::step(old(self)@.version),
                ..old(self)@
            }),
            final(self)@.version != 0,
    {
        self.version.increment();
    }

    /// Sets the backup-creation time to the current time.  The clock's
    /// reading cannot be predicted; everything else is untouched.
    pub fn set_created_now(&mut self)
        ensures
            final(self)@.version == old(self)@.version,
            final(self)@.path == old(self)@.path,
            final(self)@.fs == old(self)@.fs,
    {
        self.backup_created = Timestamp::now();
    }

    /// Gets the [`FileVersion`].
    pub fn version(&self) -> (r: &FileVersion)
        ensures
            r.val() == self@.version,
    {
        &self.version
    }

    /// Gets the time the backup was created.
    pub fn created(&self) -> (r: &Timestamp)
        ensures
            r@ == self@.backup_created,
    {
        &self.backup_created
    }

    /// Gets the original path of this file, as raw bytes.
    pub fn path(&self) -> (r: &Vec<u8>)
        ensures
            r@ == self@.path,
    {
        &self.path
    }

    /// Gets the filesystem metadata for this file.
    pub fn fs_meta(&self) -> (r: &FsMetadata)
        ensures
            r@ == self@.fs,
    {
        &self.fs_meta
    }
}

/// The encoding of a possibly-absent seconds value: a presence byte, then
/// the value as eight little-endian bytes, zero when absent.
pub open spec fn spec_opt_secs_bytes(o: Option<u64>) -> Seq<u8> {
    match o {
        None => seq![0u8] + spec_u64_to_le_bytes(0),
        Some(v) => seq![1u8] + spec_u64_to_le_bytes(v),
    }
}

/// The possibly-absent seconds value a presence byte and a decoded value
/// stand for, or `None` if the pair is not a valid encoding.
pub open spec fn spec_opt_secs_from(tag: u8, v: u64) -> Option<Option<u64>> {
    if tag == 0u8 && v == 0u64 {
        Some(None)
    } else if tag == 1u8 {
        Some(Some(v))
    } else {
        None
    }
}

/// The serialized form of a metadata record: version, backup time, the
/// three snapshot times, size, kind tag, then the raw path bytes.
pub open spec fn spec_meta_bytes(m: MetaModel) -> Seq<u8> {
    spec_u32_to_le_bytes(m.version) + spec_u64_to_le_bytes(m.backup_created)
        + spec_opt_secs_bytes(m.fs.created) + spec_opt_secs_bytes(m.fs.modified)
        + spec_opt_secs_bytes(m.fs.accessed) + spec_u64_to_le_bytes(m.fs.size)
        + seq![m.fs.kind.spec_tag()] + m.path
}

/// The record read back from an encoded block, or `None` where the block
/// is too short or a tag byte is not a valid encoding.
pub open spec fn spec_meta_from_bytes(s: Seq<u8>) -> Option<MetaModel> {
    if s.len() < META_FIXED_SIZE {
        None
    } else {
        let version = spec_u32_from_le_bytes(s.subrange(0, 4));
        let backup_created = spec_u64_from_le_bytes(s.subrange(4, 12));
        let created = spec_opt_secs_from(s[12], spec_u64_from_le_bytes(s.subrange(13, 21)));
        let modified = spec_opt_secs_from(s[21], spec_u64_from_le_bytes(s.subrange(22, 30)));
        let accessed = spec_opt_secs_from(s[30], spec_u64_from_le_bytes(s.subrange(31, 39)));
        let size = spec_u64_from_le_bytes(s.subrange(39, 47));
        let kind = FileKind::spec_from_tag(s[47]);
        if created is Some && modified is Some && accessed is Some && kind is Some {
            Some(MetaModel {
                version,
                backup_created,
                path: s.skip(META_FIXED_SIZE as int),
                fs: FsMetaModel {
                    created: created.unwrap(),
                    modified: modified.unwrap(),
                    accessed: accessed.unwrap(),
                    size,
                    kind: kind.unwrap(),
                },
            })
        } else {
            None
        }
    }
}

/// Encoding a record and decoding the block yields the record unchanged:
/// the metadata layout loses nothing.
pub proof fn lemma_meta_bytes_roundtrip(m: MetaModel)
    ensures
        spec_meta_bytes(m).len() == META_FIXED_SIZE + m.path.len(),
        spec_meta_from_bytes(spec_meta_bytes(m)) == Some(m),
{
    lemma_auto_spec_u32_to_from_le_bytes();
    lemma_auto_spec_u64_to_from_le_bytes();
    let s = spec_meta_bytes(m);
    assert(s.subrange(0, 4) =~= spec_u32_to_le_bytes(m.version));
    assert(s.subrange(4, 12) =~= spec_u64_to_le_bytes(m.backup_created));
    assert(s.subrange(13, 21) =~= spec_opt_secs_bytes(m.fs.created).subrange(1, 9));
    assert(s.subrange(22, 30) =~= spec_opt_secs_bytes(m.fs.modified).subrange(1, 9));
    assert(s.subrange(31, 39) =~= spec_opt_secs_bytes(m.fs.accessed).subrange(1, 9));
    assert(s.subrange(39, 47) =~= spec_u64_to_le_bytes(m.fs.size));
    lemma_opt_secs_piece(m.fs.created);
    lemma_opt_secs_piece(m.fs.modified);
    lemma_opt_secs_piece(m.fs.accessed);
    assert(s[12] == spec_opt_secs_bytes(m.fs.created)[0]);
    assert(s[21] == spec_opt_secs_bytes(m.fs.modified)[0]);
    assert(s[30] == spec_opt_secs_bytes(m.fs.accessed)[0]);
    assert(s[47] == m.fs.kind.spec_tag());
    assert(s.skip(META_FIXED_SIZE as int) =~= m.path);
}

/// The encoding is canonical: a block that decodes at all is exactly the
/// encoding of the record it decodes to.  With the round trip this makes
/// the encoding a bijection between records and decodable blocks.
pub proof fn lemma_meta_bytes_canonical(s: Seq<u8>)
    requires
        spec_meta_from_bytes(s) is Some,
    ensures
        spec_meta_bytes(spec_meta_from_bytes(s).unwrap()) == s,
{
    lemma_auto_spec_u32_to_from_le_bytes();
    lemma_auto_spec_u64_to_from_le_bytes();
    let m = spec_meta_from_bytes(s).unwrap();
    assert(spec_u32_to_le_bytes(m.version) == s.subrange(0, 4));
    assert(spec_u64_to_le_bytes(m.backup_created) == s.subrange(4, 12));
    lemma_opt_secs_canonical(s, 12);
    lemma_opt_secs_canonical(s, 21);
    lemma_opt_secs_canonical(s, 30);
    assert(spec_u64_to_le_bytes(m.fs.size) == s.subrange(39, 47));
    assert(seq![m.fs.kind.spec_tag()] =~= s.subrange(47, 48));
    assert(spec_meta_bytes(m) =~= s);
}

/// A presence byte and value bytes that decode at all are exactly the
/// encoding of the value they decode to.
proof fn lemma_opt_secs_canonical(s: Seq<u8>, off: int)
    requires
        0 <= off,
        off + 9 <= s.len(),
        spec_opt_secs_from(s[off], spec_u64_from_le_bytes(s.subrange(off + 1, off + 9))) is Some,
    ensures
        spec_opt_secs_bytes(
            spec_opt_secs_from(s[off], spec_u64_from_le_bytes(s.subrange(off + 1, off + 9))).unwrap(),
        ) == s.subrange(off, off + 9),
{
    lemma_auto_spec_u64_to_from_le_bytes();
    let v = spec_u64_from_le_bytes(s.subrange(off + 1, off + 9));
    let o = spec_opt_secs_from(s[off], v).unwrap();
    assert(spec_u64_to_le_bytes(v) == s.subrange(off + 1, off + 9));
    assert(spec_opt_secs_bytes(o) =~= s.subrange(off, off + 9));
}

/// An encoded possibly-absent seconds value is nine bytes, and its
/// presence byte and value bytes decode to the value it encodes.
proof fn lemma_opt_secs_piece(o: Option<u64>)
    ensures
        spec_opt_secs_bytes(o).len() == 9,
        spec_opt_secs_from(
            spec_opt_secs_bytes(o)[0],
            spec_u64_from_le_bytes(spec_opt_secs_bytes(o).subrange(1, 9)),
        ) == Some(o),
{
    lemma_auto_spec_u64_to_from_le_bytes();
    match o {
        None => {
            assert(spec_opt_secs_bytes(o).subrange(1, 9) =~= spec_u64_to_le_bytes(0));
        },
        Some(v) => {
            assert(spec_opt_secs_bytes(o).subrange(1, 9) =~= spec_u64_to_le_bytes(v));
        },
    }
}

/// Appends the encoding of a possibly-absent timestamp to `out`.
fn push_opt_secs(out: &mut Vec<u8>, o: Option<Timestamp>)
    ensures
        final(out)@ == old(out)@ + spec_opt_secs_bytes(spec_opt_secs(o)),
{
    match o {
        None => {
            out.push(0u8);
            let mut z = u64_to_le_bytes(0);
            out.append(&mut z);
        },
        Some(t) => {
            out.push(1u8);
            let mut v = u64_to_le_bytes(t.as_secs());
            out.append(&mut v);
        },
    }
    assert(out@ =~= old(out)@ + spec_opt_secs_bytes(spec_opt_secs(o)));
}

/// Serializes a metadata record into its byte block.
pub fn encode_meta(m: &FileMeta) -> (r: Vec<u8>)
    ensures
        r@ == spec_meta_bytes(m@),
        r@.len() == META_FIXED_SIZE + m@.path.len(),
{
    proof {
        lemma_meta_bytes_roundtrip(m@);
    }
    let mut out = u32_to_le_bytes(m.version().get());
    let mut created = u64_to_le_bytes(m.created().as_secs());
    out.append(&mut created);
    push_opt_secs(&mut out, m.fs_meta().created());
    push_opt_secs(&mut out, m.fs_meta().modified());
    push_opt_secs(&mut out, m.fs_meta().accessed());
    let mut size = u64_to_le_bytes(m.fs_meta().size());
    out.append(&mut size);
    out.push(m.fs_meta().file_type().tag());
    let mut path = slice_to_vec(m.path().as_slice());
    out.append(&mut path);
    assert(out@ =~= spec_meta_bytes(m@));
    out
}

/// Reads one possibly-absent timestamp at `off`: a presence byte, then
/// eight value bytes.
fn read_opt_secs(bytes: &[u8], off: usize) -> (r: Result<Option<Timestamp>, Error>)
    requires
        off + 9 <= bytes@.len(),
    ensures
        match r {
            Ok(o) => spec_opt_secs_from(
                bytes@[off as int],
                spec_u64_from_le_bytes(bytes@.subrange(off as int + 1, off as int + 9)),
            ) == Some(spec_opt_secs(o)),
            Err(e) => {
                &&& spec_opt_secs_from(
                    bytes@[off as int],
                    spec_u64_from_le_bytes(bytes@.subrange(off as int + 1, off as int + 9)),
                ) is None
                &&& e is Encoding
            },
        },
{
    let _n: usize = bytes.len();
    let tag = *slice_index_get(bytes, off);
    let v = u64_from_le_bytes(slice_subrange(bytes, off + 1, off + 9));
    if tag == 0u8 && v == 0u64 {
        Ok(None)
    } else if tag == 1u8 {
        Ok(Some(Timestamp::new(v)))
    } else {
        Err(Error::Encoding("bad presence byte in a timestamp field".to_owned()))
    }
}

/// Deserializes a metadata record from a byte block.
///
/// Succeeds exactly on the blocks that are the encoding of some record,
/// and then returns that record.
pub fn decode_meta(bytes: &[u8]) -> (r: Result<FileMeta, Error>)
    ensures
        match r {
            Ok(m) => spec_meta_from_bytes(bytes@) == Some(m@),
            Err(e) => spec_meta_from_bytes(bytes@) is None && e is Encoding,
        },
{
    if bytes.len() < META_FIXED_SIZE {
        return Err(Error::Encoding("metadata block is shorter than its fixed part".to_owned()));
    }
    let version = u32_from_le_bytes(slice_subrange(bytes, 0, 4));
    let backup_created = u64_from_le_bytes(slice_subrange(bytes, 4, 12));
    let created = match read_opt_secs(bytes, 12) {
        Ok(o) => o,
        Err(e) => {
            return Err(e);
        },
    };
    let modified = match read_opt_secs(bytes, 21) {
        Ok(o) => o,
        Err(e) => {
            return Err(e);
        },
    };
    let accessed = match read_opt_secs(bytes, 30) {
        Ok(o) => o,
        Err(e) => {
            return Err(e);
        },
    };
    let size = u64_from_le_bytes(slice_subrange(bytes, 39, 47));
    let kind = match FileKind::from_tag(*slice_index_get(bytes, 47)) {
        Some(k) => k,
        None => {
            return Err(Error::Encoding("bad file-kind byte".to_owned()));
        },
    };
    let path = slice_to_vec(slice_subrange(bytes, META_FIXED_SIZE, bytes.len()));
    let fs_meta = FsMetadata::new(created, modified, accessed, size, kind);
    let meta = FileMeta::new(FileVersion::from_raw(version), Timestamp::new(backup_created), path,
        fs_meta);
    proof {
        assert(bytes@.skip(META_FIXED_SIZE as int) =~= bytes@.subrange(
            META_FIXED_SIZE as int,
            bytes@.len() as int,
        ));
    }
    Ok(meta)
}

} // verus!
