//! Backup containers: assembly, compression, decompression, and the store
//! index.
//!
//! A container is the concatenation `header ∥ metadata ∥ payload`; only its
//! compressed form ever reaches a disk.  The byte layout is proved to round
//! trip, and the compressed round trip follows from the layout proof
//! together with the decompressor's documented behaviour: it is a
//! deterministic function of the stream, inverts the compressor, and
//! rejects truncated or corrupted streams.

use vstd::prelude::*;
use vstd::slice::{slice_subrange, slice_to_vec};

use crate::config::Config;
use crate::error::Error;
use crate::header::{spec_header_bytes, spec_header_from_bytes, FileHeader, HEADER_SIZE,
    lemma_header_bytes_canonical, lemma_header_bytes_roundtrip};
use crate::meta::{decode_meta, encode_meta, lemma_meta_bytes_canonical, lemma_meta_bytes_roundtrip,
    spec_meta_bytes, spec_meta_from_bytes, FileMeta, FsMetadata, MetaModel};
use crate::time::Timestamp;
use crate::version::saturating::FileVersion;

verus! {

/// The buffer size handed to the compressor and decompressor.
const BUFFER_SIZE: usize = 4096;

/// The mathematical model of an uncompressed container.
pub ghost struct ContainerModel {
    /// The fixed-width header.
    pub header: FileHeader,
    /// The metadata record.
    pub meta: MetaModel,
    /// The raw bytes of the backed-up file.
    pub payload: Seq<u8>,
}

impl ContainerModel {
    /// A container is well formed when its header declares exactly the
    /// encoded size of its metadata record and exactly the length of its
    /// payload.
    pub open spec fn wf(self) -> bool {
        &&& self.header.meta_size == spec_meta_bytes(self.meta).len()
        &&& self.header.file_size == self.payload.len()
    }
}

/// The flattened form of a container: header bytes, then the encoded
/// metadata block, then the payload.
pub open spec fn spec_container_bytes(c: ContainerModel) -> Seq<u8> {
    spec_header_bytes(c.header) + spec_meta_bytes(c.meta) + c.payload
}

/// The container read back from a flattened form, or `None` where the
/// header cannot be parsed, the declared lengths do not add up to the
/// block's length, or the metadata block does not decode.
pub open spec fn spec_container_from_bytes(s: Seq<u8>) -> Option<ContainerModel> {
    if s.len() < HEADER_SIZE {
        None
    } else {
        let h = spec_header_from_bytes(s.subrange(0, HEADER_SIZE as int));
        if HEADER_SIZE + h.meta_size + h.file_size == s.len() {
            match spec_meta_from_bytes(
                s.subrange(HEADER_SIZE as int, HEADER_SIZE + h.meta_size),
            ) {
                Some(m) => Some(ContainerModel {
                    header: h,
                    meta: m,
                    payload: s.subrange(HEADER_SIZE + h.meta_size, s.len() as int),
                }),
                None => None,
            }
        } else {
            None
        }
    }
}

/// Flattening a well-formed container and reading the bytes back yields
/// the container unchanged: the layout loses nothing.
pub proof fn lemma_container_bytes_roundtrip(c: ContainerModel)
    requires
        c.wf(),
    ensures
        spec_container_bytes(c).len() == HEADER_SIZE + c.header.meta_size + c.header.file_size,
        spec_container_from_bytes(spec_container_bytes(c)) == Some(c),
{
    let s = spec_container_bytes(c);
    lemma_header_bytes_roundtrip(c.header);
    lemma_meta_bytes_roundtrip(c.meta);
    assert(s.subrange(0, HEADER_SIZE as int) =~= spec_header_bytes(c.header));
    assert(s.subrange(HEADER_SIZE as int, HEADER_SIZE + c.header.meta_size) =~= spec_meta_bytes(
        c.meta,
    ));
    assert(s.subrange(HEADER_SIZE + c.header.meta_size, s.len() as int) =~= c.payload);
}

/// The layout is canonical: a block that parses at all is exactly the
/// flattened form of the container it parses to, and that container is
/// well formed.
pub proof fn lemma_container_bytes_canonical(s: Seq<u8>)
    requires
        spec_container_from_bytes(s) is Some,
    ensures
        spec_container_from_bytes(s).unwrap().wf(),
        spec_container_bytes(spec_container_from_bytes(s).unwrap()) == s,
{
    let c = spec_container_from_bytes(s).unwrap();
    lemma_header_bytes_canonical(s.subrange(0, HEADER_SIZE as int));
    lemma_meta_bytes_canonical(s.subrange(HEADER_SIZE as int, HEADER_SIZE + c.header.meta_size));
    assert(spec_container_bytes(c) =~= s);
}

/// What the decompressor returns on a given byte stream: the stream's
/// content, or `None` where the stream is rejected.  The decompressor is
/// built from integer operations alone, so the result is a function of
/// the input bytes alone; the stream format itself is not modelled.
pub uninterp spec fn spec_decompressed_bytes(s: Seq<u8>) -> Option<Seq<u8>>;

/// Relies on `brotli::CompressorWriter` (buffer 4096, quality 11, window
/// 22): the writer compresses exactly the bytes written to it, finishing
/// the stream when dropped.  Writing into a `Vec` cannot fail, so the
/// call always succeeds.  The produced stream is self-delimiting and
/// decompresses back to the input; a strict prefix of it is an
/// incomplete stream, which the decompressor rejects.
#[verifier::external_body]
fn compress_bytes(input: &Vec<u8>) -> (r: Result<Vec<u8>, String>)
    ensures
        r is Ok,
        spec_decompressed_bytes(r.unwrap()@) == Some(input@),
        forall|k: int|
            0 <= k < r.unwrap()@.len() ==> #[trigger] spec_decompressed_bytes(
                r.unwrap()@.subrange(0, k),
            ) is None,
{
    let mut out: Vec<u8> = Vec::new();
    {
        let mut w = brotli::CompressorWriter::new(&mut out, BUFFER_SIZE, 11, 22);
        if let Err(e) = std::io::Write::write_all(&mut w, input.as_slice()) {
            return Err(e.to_string());
        }
        if let Err(e) = std::io::Write::flush(&mut w) {
            return Err(e.to_string());
        }
    }
    Ok(out)
}

/// Relies on `brotli::Decompressor`: it is a deterministic function of
/// the input bytes, returns a complete valid stream's content, and
/// errors on a truncated stream, a corrupt stream, or trailing bytes.
#[verifier::external_body]
fn decompress_bytes(input: &Vec<u8>) -> (r: Result<Vec<u8>, String>)
    ensures
        match r {
            Ok(out) => spec_decompressed_bytes(input@) == Some(out@),
            Err(_) => spec_decompressed_bytes(input@) is None,
        },
{
    let mut out: Vec<u8> = Vec::new();
    let mut d = brotli::Decompressor::new(input.as_slice(), BUFFER_SIZE);
    match std::io::Read::read_to_end(&mut d, &mut out) {
        Ok(_) => Ok(out),
        Err(e) => Err(e.to_string()),
    }
}

/// A file that has been backed up: one header, one metadata record, and
/// the raw bytes of the source at backup time.  The header is derived from
/// the other two parts, never set on its own.
#[derive(Debug, Clone)]
pub struct BackupFile {
    header: FileHeader,
    meta: FileMeta,
    file_bytes: Vec<u8>,
}

impl View for BackupFile {
    type V = ContainerModel;

    closed spec fn view(&self) -> ContainerModel {
        ContainerModel { header: self.header, meta: self.meta@, payload: self.file_bytes@ }
    }
}

impl BackupFile {
    /// Create a new (**version 1**) backup container for the file at
    /// `path`, whose filesystem snapshot and full content the caller has
    /// just read.  The header is computed from the actual encoded metadata
    /// size and the actual byte length, so the result is well formed.
    pub fn create_new(path: Vec<u8>, created: Timestamp, fs_meta: FsMetadata, file_bytes: Vec<u8>)
        -> (r: Self)
        ensures
            r@.wf(),
            r@.meta.version == 1,
            r@.meta.backup_created == created@,
            r@.meta.path == path@,
            r@.meta.fs == fs_meta@,
            r@.payload == file_bytes@,
    {
        let meta = FileMeta::new(FileVersion::new(), created, path, fs_meta);
        let encoded = encode_meta(&meta);
        let header = FileHeader::new(encoded.len() as u64, file_bytes.len() as u64);
        Self { header, meta, file_bytes }
    }

    /// Updates this backup after a change to the source file: overwrites
    /// the filesystem snapshot with `fs_meta`, replaces the payload with
    /// `file_bytes`, bumps the version by one, and recomputes the header.
    /// Must not be called on a container whose version is invalid.
    pub fn update_backup(&mut self, fs_meta: FsMetadata, file_bytes: Vec<u8>)
        requires
            old(self)@.meta.version != 0,
        ensures
            final(self)@.wf(),
            final(self)@.meta.version == FileVersion::step(old(self)@.meta.version),
            final(self)@.meta.version != 0,
            final(self)@.meta.backup_created == old(self)@.meta.backup_created,
            final(self)@.meta.path == old(self)@.meta.path,
            final(self)@.meta.fs == fs_meta@,
            final(self)@.payload == file_bytes@,
    {
        self.meta.update_from_metadata(fs_meta);
        self.meta.bump_version();
        let encoded = encode_meta(&self.meta);
        self.header = FileHeader::new(encoded.len() as u64, file_bytes.len() as u64);
        self.file_bytes = file_bytes;
    }

    /// The container's header.
    pub fn header(&self) -> (r: &FileHeader)
        ensures
            r == self@.header,
    {
        &self.header
    }

    /// The container's metadata record.
    pub fn meta(&self) -> (r: &FileMeta)
        ensures
            r@ == self@.meta,
    {
        &self.meta
    }

    /// The raw bytes of the backed-up file.
    pub fn file_bytes(&self) -> (r: &Vec<u8>)
        ensures
            r@ == self@.payload,
    {
        &self.file_bytes
    }

    /// Flattens this container into `header ∥ metadata ∥ payload`.
    fn flatten(&self) -> (r: Vec<u8>)
        ensures
            r@ == spec_container_bytes(self@),
    {
        let mut out = self.header.to_bytes();
        let mut meta_bytes = encode_meta(&self.meta);
        out.append(&mut meta_bytes);
        out.extend_from_slice(self.file_bytes.as_slice());
        assert(out@ =~= spec_container_bytes(self@));
        out
    }

    /// Compresses this backup file into a [`CompressedBackupFile`].
    ///
    /// The container must be well formed — its header was derived moments
    /// earlier, so a mismatch here would be a logic fault, not bad input.
    /// Compression into memory cannot fail, so success is owed: the
    /// result decompresses back to exactly this container's flattened
    /// bytes, and no strict prefix of it decompresses at all.
    pub fn try_compress(self) -> (r: Result<CompressedBackupFile, Error>)
        requires
            self@.wf(),
        ensures
            r is Ok,
            spec_decompressed_bytes(r.unwrap()@) == Some(spec_container_bytes(self@)),
            forall|k: int|
                0 <= k < r.unwrap()@.len() ==> #[trigger] spec_decompressed_bytes(
                    r.unwrap()@.subrange(0, k),
                ) is None,
    {
        let bytes = self.flatten();
        match compress_bytes(&bytes) {
            Ok(compressed) => Ok(CompressedBackupFile::new(compressed)),
            Err(m) => Err(Error::Compression(m)),
        }
    }
}

/// A compressed backup container, the only artifact that is written to or
/// read from the persistent store.
#[derive(Debug, Clone)]
pub struct CompressedBackupFile(Vec<u8>);

impl View for CompressedBackupFile {
    type V = Seq<u8>;

    closed spec fn view(&self) -> Seq<u8> {
        self.0@
    }
}

impl CompressedBackupFile {
    /// Creates a new [`CompressedBackupFile`] from the given bytes.
    pub fn new(bytes: Vec<u8>) -> (r: Self)
        ensures
            r@ == bytes@,
    {
        Self(bytes)
    }

    /// The compressed bytes, as they would be written to disk.
    pub fn as_bytes(&self) -> (r: &Vec<u8>)
        ensures
            r@ == self@,
    {
        &self.0
    }

    /// Attempts to decompress this [`CompressedBackupFile`] back into a
    /// [`BackupFile`].
    ///
    /// Succeeds exactly when the bytes are a complete valid stream whose
    /// content is the flattened form of some container, and then returns
    /// that container — so a compressed container comes back unchanged,
    /// and a truncated or corrupted stream is answered with an error,
    /// never with a silent partial result.
    pub fn try_decompress(self) -> (r: Result<BackupFile, Error>)
        ensures
            forall|c: ContainerModel|
                c.wf() && spec_decompressed_bytes(self@) == Some(spec_container_bytes(c))
                    ==> r is Ok && r.unwrap()@ == c,
            match r {
                Ok(b) => {
                    &&& spec_decompressed_bytes(self@) is Some
                    &&& spec_container_from_bytes(spec_decompressed_bytes(self@).unwrap())
                        == Some(b@)
                    &&& b@.wf()
                },
                Err(e) => {
                    &&& (spec_decompressed_bytes(self@) is None || spec_container_from_bytes(
                        spec_decompressed_bytes(self@).unwrap(),
                    ) is None)
                    &&& (e is Compression || e is Format || e is Encoding)
                },
            },
    {
        let raw = match decompress_bytes(&self.0) {
            Ok(v) => v,
            Err(m) => {
                return Err(Error::Compression(m));
            },
        };
        let parsed = parse_container(raw.as_slice());
        proof {
            assert forall|c: ContainerModel|
                c.wf() && spec_decompressed_bytes(self@) == Some(spec_container_bytes(c)) implies (
            parsed is Ok && parsed.unwrap()@ == c) by {
                lemma_container_bytes_roundtrip(c);
            }
        }
        parsed
    }
}

/// Parses a flattened container block: header first, then the metadata
/// block and payload split as the header declares.  Succeeds exactly on
/// the blocks that are the flattened form of some container — declared
/// and actual lengths are compared, so a truncated or padded block is
/// rejected.
pub fn parse_container(bytes: &[u8]) -> (r: Result<BackupFile, Error>)
    ensures
        match r {
            Ok(b) => spec_container_from_bytes(bytes@) == Some(b@) && b@.wf(),
            Err(e) => {
                &&& spec_container_from_bytes(bytes@) is None
                &&& (e is Format || e is Encoding)
            },
        },
{
    let (header, rest) = match FileHeader::try_from_bytes(bytes) {
        Ok(p) => p,
        Err(e) => {
            return Err(e);
        },
    };
    let rest_len: usize = rest.len();
    if header.meta_size > rest_len as u64 {
        return Err(Error::Format("declared metadata size exceeds the data present".to_owned()));
    }
    let meta_size: usize = header.meta_size as usize;
    if header.file_size != (rest_len - meta_size) as u64 {
        return Err(Error::Format("declared sizes do not match the data present".to_owned()));
    }
    let meta_slice = slice_subrange(rest, 0, meta_size);
    let payload_slice = slice_subrange(rest, meta_size, rest_len);
    proof {
        assert(bytes@.subrange(HEADER_SIZE as int, HEADER_SIZE + header.meta_size) =~= rest@
            .subrange(0, meta_size as int));
        assert(bytes@.subrange(HEADER_SIZE + header.meta_size, bytes@.len() as int) =~= rest@
            .subrange(meta_size as int, rest_len as int));
    }
    let meta = match decode_meta(meta_slice) {
        Ok(m) => m,
        Err(e) => {
            return Err(e);
        },
    };
    let file_bytes = slice_to_vec(payload_slice);
    let parsed = BackupFile { header, meta, file_bytes };
    proof {
        assert(spec_container_from_bytes(bytes@) == Some(parsed@));
        lemma_container_bytes_canonical(bytes@);
    }
    Ok(parsed)
}

/// The header and metadata read from a container block's leading bytes,
/// or `None` where the header cannot be parsed or the block does not reach
/// past the declared metadata size.  The payload is not examined, so the
/// block may stop anywhere past the metadata.
pub open spec fn spec_header_meta_from_bytes(s: Seq<u8>) -> Option<(FileHeader, MetaModel)> {
    if s.len() < HEADER_SIZE {
        None
    } else {
        let h = spec_header_from_bytes(s.subrange(0, HEADER_SIZE as int));
        if HEADER_SIZE + h.meta_size <= s.len() {
            match spec_meta_from_bytes(
                s.subrange(HEADER_SIZE as int, HEADER_SIZE + h.meta_size),
            ) {
                Some(m) => Some((h, m)),
                None => None,
            }
        } else {
            None
        }
    }
}

/// The cheap index path agrees with the full parse: whatever header and
/// metadata a complete container block parses to are exactly the ones its
/// leading bytes yield.
pub proof fn lemma_extract_agrees_with_parse(s: Seq<u8>)
    requires
        spec_container_from_bytes(s) is Some,
    ensures
        spec_header_meta_from_bytes(s) == Some(
            (spec_container_from_bytes(s).unwrap().header, spec_container_from_bytes(s).unwrap().meta),
        ),
{
}

/// Given the leading bytes of a **backup** file, extract only the
/// [`FileHeader`] and the [`FileMeta`], without touching the payload.
/// This is what lets a store index stay cheap whatever the size of the
/// backed-up files.
pub fn extract_header_and_meta(bytes: &[u8]) -> (r: Result<(FileHeader, FileMeta), Error>)
    ensures
        match r {
            Ok(p) => spec_header_meta_from_bytes(bytes@) == Some((p.0, p.1@)),
            Err(e) => {
                &&& spec_header_meta_from_bytes(bytes@) is None
                &&& (e is Format || e is Encoding)
            },
        },
{
    let (header, rest) = match FileHeader::try_from_bytes(bytes) {
        Ok(p) => p,
        Err(e) => {
            return Err(e);
        },
    };
    let rest_len: usize = rest.len();
    if header.meta_size > rest_len as u64 {
        return Err(Error::Format("too few bytes for the declared metadata size".to_owned()));
    }
    let meta_size: usize = header.meta_size as usize;
    let meta_slice = slice_subrange(rest, 0, meta_size);
    proof {
        assert(bytes@.subrange(HEADER_SIZE as int, HEADER_SIZE + header.meta_size) =~= rest@
            .subrange(0, meta_size as int));
    }
    let meta = match decode_meta(meta_slice) {
        Ok(m) => m,
        Err(e) => {
            return Err(e);
        },
    };
    Ok((header, meta))
}

/// One store file's raw material for the index: where the file sits in
/// the store, and its leading bytes (at least through the metadata block).
pub struct StoreFile {
    /// The container file's path in the store, as raw bytes.
    pub path: Vec<u8>,
    /// The leading bytes of the container file.
    pub leading_bytes: Vec<u8>,
}

/// One index entry: the header and metadata read from a container file's
/// leading bytes, and that file's path in the store.
#[derive(Debug, Clone)]
pub struct BackupInfo {
    /// The container's header.
    pub header: FileHeader,
    /// The container's metadata record.
    pub meta: FileMeta,
    /// The container file's path in the store, as raw bytes.
    pub backup_path: Vec<u8>,
}

impl BackupInfo {
    /// The entry `file` should map to in the index: its path, and the
    /// header and metadata parsed from its leading bytes.
    pub open spec fn spec_indexes(self, file: StoreFile) -> bool {
        &&& spec_header_meta_from_bytes(file.leading_bytes@) == Some((self.header, self.meta@))
        &&& self.backup_path@ == file.path@
    }
}

/// The main interface for backing up and retrieving files: a
/// configuration, and an index over the store directory's container
/// files.
#[derive(Debug)]
pub struct BackupManager {
    config: Config,
    file_info: Vec<BackupInfo>,
}

impl BackupManager {
    /// The configuration the manager currently uses.
    pub closed spec fn spec_config(&self) -> Config {
        self.config
    }

    /// The index entries the manager currently holds.
    pub closed spec fn spec_infos(&self) -> Seq<BackupInfo> {
        self.file_info@
    }

    /// Creates a new [`BackupManager`] with the given [`Config`] and an
    /// empty index; [`BackupManager::rebuild_index`] fills the index from
    /// the store directory's files.
    pub fn new(config: Config) -> (r: Self)
        ensures
            r.spec_config() == config,
            r.spec_infos() == Seq::<BackupInfo>::empty(),
    {
        Self { config, file_info: Vec::new() }
    }

    /// Update the [`Config`] used by the [`BackupManager`].
    pub fn update_config(&mut self, config: Config)
        ensures
            final(self).spec_config() == config,
            final(self).spec_infos() == old(self).spec_infos(),
    {
        self.config = config;
    }

    /// The current index, one entry per store file of the last successful
    /// rebuild.
    pub fn infos(&self) -> (r: &Vec<BackupInfo>)
        ensures
            r@ == self.spec_infos(),
    {
        &self.file_info
    }

    /// Replaces the index with one built from `files`, the store
    /// directory's container files and their leading bytes.  On success
    /// every given file has exactly one entry, in order, whose header and
    /// metadata come from that file's bytes; if any file fails to parse,
    /// the whole index is left as it was and that file's error is
    /// returned.
    pub fn rebuild_index(&mut self, files: &Vec<StoreFile>) -> (r: Result<(), Error>)
        ensures
            match r {
                Ok(()) => {
                    &&& final(self).spec_infos().len() == files@.len()
                    &&& forall|i: int|
                        0 <= i < files@.len() ==> #[trigger] final(self).spec_infos()[i]
                            .spec_indexes(files@[i])
                },
                Err(e) => {
                    &&& *final(self) == *old(self)
                    &&& (e is Format || e is Encoding)
                    &&& exists|i: int|
                        0 <= i < files@.len() && #[trigger] spec_header_meta_from_bytes(
                            files@[i].leading_bytes@,
                        ) is None
                },
            },
            final(self).spec_config() == old(self).spec_config(),
    {
        let mut infos: Vec<BackupInfo> = Vec::new();
        let n: usize = files.len();
        let mut idx: usize = 0;
        while idx < n
            invariant
                n == files@.len(),
                0 <= idx <= n,
                infos@.len() == idx,
                forall|i: int|
                    0 <= i < idx ==> #[trigger] infos@[i].spec_indexes(files@[i]),
            decreases n - idx,
        {
            let file = &files[idx];
            let (header, meta) = match extract_header_and_meta(file.leading_bytes.as_slice()) {
                Ok(p) => p,
                Err(e) => {
                    return Err(e);
                },
            };
            let backup_path = slice_to_vec(file.path.as_slice());
            infos.push(BackupInfo { header, meta, backup_path });
            idx = idx + 1;
        }
        self.file_info = infos;
        Ok(())
    }
}

} // verus!
