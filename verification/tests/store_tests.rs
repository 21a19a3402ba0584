use backup_store::{
    extract_header_and_meta, BackupFile, BackupManager, CompressedBackupFile, Config, FileHeader,
    FileKind, FileMeta, FileVersion, FsMetadata, StoreFile, Timestamp,
};

fn sample_fs_meta(size: u64) -> FsMetadata {
    FsMetadata::new(
        Some(Timestamp::new(100)),
        Some(Timestamp::new(200)),
        None,
        size,
        FileKind::File,
    )
}

fn container_bytes(backup: &BackupFile) -> Vec<u8> {
    let mut bytes = backup.header().to_bytes();
    bytes.extend_from_slice(&backup_store::encode_meta(backup.meta()));
    bytes.extend_from_slice(backup.file_bytes());
    bytes
}

#[test]
fn size_testing() {
    assert_eq!(1, 1);
}

#[test]
fn roundtrip_test() {
    const FILE_TEXT: &str = "The quick brown fox jumps over the lazy dog.";
    let path = b"/tmp/roundtrip-sample.txt".to_vec();
    let file_bytes = FILE_TEXT.as_bytes().to_vec();
    let fs_meta = sample_fs_meta(file_bytes.len() as u64);

    let backup = BackupFile::create_new(path, Timestamp::new(1700000000), fs_meta, file_bytes);
    {
        let file_text = String::from_utf8(backup.file_bytes().clone())
            .expect("failed to create string from file bytes");
        assert_eq!(
            file_text, FILE_TEXT,
            "file text should be the same after compression and decompression"
        );
    }
    let result = backup.try_compress();
    assert!(result.is_ok(), "BackupFile::try_compress failed");
    let compressed = result.unwrap();
    let result = compressed.try_decompress();
    assert!(result.is_ok(), "CompressedBackupFile::try_decompress failed");
    let decompressed = result.unwrap();
    let file_text = String::from_utf8(decompressed.file_bytes().clone())
        .expect("failed to create string from file bytes");
    assert_eq!(
        file_text, FILE_TEXT,
        "file text should be the same after compression and decompression"
    );
}

#[test]
fn forty_five_byte_scenario() {
    // A 45-byte text recovered byte-for-byte, with metadata version 1.
    let text: &[u8] = b"This text is exactly forty-five bytes long!!!";
    assert_eq!(text.len(), 45);
    let backup = BackupFile::create_new(
        b"/home/user/notes.txt".to_vec(),
        Timestamp::new(1700000001),
        sample_fs_meta(45),
        text.to_vec(),
    );
    let compressed = backup.try_compress().expect("compression failed");
    let recovered = compressed.try_decompress().expect("decompression failed");
    assert_eq!(recovered.file_bytes().as_slice(), text);
    assert_eq!(recovered.meta().version().get(), 1);
    assert_eq!(recovered.meta().path().as_slice(), b"/home/user/notes.txt");
    assert_eq!(recovered.meta().created().as_secs(), 1700000001);
    assert_eq!(recovered.meta().fs_meta().size(), 45);
    assert_eq!(recovered.meta().fs_meta().file_type(), FileKind::File);
    assert_eq!(
        recovered.meta().fs_meta().created(),
        Some(Timestamp::new(100))
    );
    assert_eq!(
        recovered.meta().fs_meta().modified(),
        Some(Timestamp::new(200))
    );
    assert_eq!(recovered.meta().fs_meta().accessed(), None);
}

#[test]
fn second_backup_has_version_two() {
    // Backing the same path up twice: the second container is at version
    // 2 while a retained copy of the first stays at version 1.
    let first = BackupFile::create_new(
        b"/home/user/twice.txt".to_vec(),
        Timestamp::new(1700000002),
        sample_fs_meta(5),
        b"hello".to_vec(),
    );
    let mut second = first.clone();
    second.update_backup(sample_fs_meta(6), b"hello!".to_vec());
    assert_eq!(second.meta().version().get(), 2);
    assert_eq!(first.meta().version().get(), 1);
    assert_eq!(second.meta().path().as_slice(), b"/home/user/twice.txt");
    assert_eq!(second.file_bytes().as_slice(), b"hello!");
    assert_eq!(first.file_bytes().as_slice(), b"hello");
}

#[test]
fn header_sizes_match_blocks() {
    // The header always declares the exact encoded metadata size and the
    // exact payload size, for fresh and for refreshed containers.
    let mut backup = BackupFile::create_new(
        b"/tmp/sizes.bin".to_vec(),
        Timestamp::new(3),
        sample_fs_meta(3),
        vec![1, 2, 3],
    );
    let encoded = backup_store::encode_meta(backup.meta());
    assert_eq!(backup.header().meta_size, encoded.len() as u64);
    assert_eq!(backup.header().file_size, 3);

    backup.update_backup(sample_fs_meta(10), vec![9; 10]);
    let encoded = backup_store::encode_meta(backup.meta());
    assert_eq!(backup.header().meta_size, encoded.len() as u64);
    assert_eq!(backup.header().file_size, 10);
}

#[test]
fn truncated_container_is_rejected() {
    // Truncating a compressed container must yield an error, never a
    // silent partial result.
    let backup = BackupFile::create_new(
        b"/tmp/truncate.bin".to_vec(),
        Timestamp::new(4),
        sample_fs_meta(100),
        vec![7; 100],
    );
    let compressed = backup.try_compress().expect("compression failed");
    let full = compressed.as_bytes().clone();
    assert!(full.len() > 4);
    let truncated: Vec<u8> = full[..full.len() - 4].to_vec();
    let result = CompressedBackupFile::new(truncated).try_decompress();
    assert!(result.is_err());
}

#[test]
fn compressor_transforms_the_stream() {
    // The stored bytes are a real transformation of the container, not a
    // copy of it, and repetitive data gets smaller.
    let payload = vec![42u8; 4000];
    let backup = BackupFile::create_new(
        b"/tmp/repetitive.bin".to_vec(),
        Timestamp::new(5),
        sample_fs_meta(4000),
        payload,
    );
    let raw = container_bytes(&backup);
    let compressed = backup.try_compress().expect("compression failed");
    assert_ne!(compressed.as_bytes(), &raw);
    assert!(compressed.as_bytes().len() < raw.len());
}

#[test]
fn header_byte_layout_is_little_endian() {
    let header = FileHeader::new(3, 5);
    let bytes = header.to_bytes();
    let mut expected = vec![0u8; 16];
    expected[0] = 3;
    expected[8] = 5;
    assert_eq!(bytes, expected);
    let parsed = FileHeader::try_from_bytes_exact(&bytes).expect("exact parse failed");
    assert_eq!(parsed, header);
}

#[test]
fn header_parse_errors_are_format_errors() {
    let short = [0u8; 8];
    let err = FileHeader::try_from_bytes_exact(&short).unwrap_err();
    assert!(err.is_format());
    let err = FileHeader::try_from_bytes(&short).unwrap_err();
    assert!(err.is_format());
}

#[test]
fn header_prefix_parse_returns_remainder() {
    let header = FileHeader::new(1, 2);
    let mut bytes = header.to_bytes();
    bytes.extend_from_slice(b"xyz");
    let (parsed, rest) = FileHeader::try_from_bytes(&bytes).expect("prefix parse failed");
    assert_eq!(parsed, header);
    assert_eq!(rest, b"xyz");
}

#[test]
fn meta_codec_round_trips() {
    let meta = FileMeta::new(
        FileVersion::new(),
        Timestamp::new(7),
        b"a/b".to_vec(),
        FsMetadata::new(None, Some(Timestamp::new(9)), None, 11, FileKind::Symlink),
    );
    let encoded = backup_store::encode_meta(&meta);
    let decoded = backup_store::decode_meta(&encoded).expect("decode failed");
    assert_eq!(decoded, meta);
}

#[test]
fn meta_encoding_layout_is_exact() {
    // version 1, backup time 7, no created, modified 9, no accessed,
    // size 11, symlink kind, then the path bytes.
    let meta = FileMeta::new(
        FileVersion::new(),
        Timestamp::new(7),
        b"a/b".to_vec(),
        FsMetadata::new(None, Some(Timestamp::new(9)), None, 11, FileKind::Symlink),
    );
    let encoded = backup_store::encode_meta(&meta);
    let mut expected = vec![0u8; 48];
    expected[0] = 1; // version
    expected[4] = 7; // backup-created seconds
    expected[12] = 0; // created: absent
    expected[21] = 1; // modified: present
    expected[22] = 9; // modified seconds
    expected[30] = 0; // accessed: absent
    expected[39] = 11; // size
    expected[47] = 2; // symlink tag
    expected.extend_from_slice(b"a/b");
    assert_eq!(encoded, expected);
}

#[test]
fn meta_decode_rejects_bad_tags() {
    let meta = FileMeta::new(
        FileVersion::new(),
        Timestamp::new(7),
        b"p".to_vec(),
        sample_fs_meta(1),
    );
    let mut encoded = backup_store::encode_meta(&meta);
    encoded[12] = 9; // not a valid presence byte
    let err = backup_store::decode_meta(&encoded).unwrap_err();
    assert!(err.is_encoding());

    let mut encoded = backup_store::encode_meta(&meta);
    encoded[47] = 200; // not a valid kind tag
    let err = backup_store::decode_meta(&encoded).unwrap_err();
    assert!(err.is_encoding());

    let err = backup_store::decode_meta(&[0u8; 10]).unwrap_err();
    assert!(err.is_encoding());
}

#[test]
fn parse_container_checks_lengths() {
    let backup = BackupFile::create_new(
        b"/tmp/parse.bin".to_vec(),
        Timestamp::new(8),
        sample_fs_meta(4),
        vec![1, 2, 3, 4],
    );
    let bytes = container_bytes(&backup);
    let parsed = backup_store::parse_container(&bytes).expect("parse failed");
    assert_eq!(parsed.file_bytes(), backup.file_bytes());
    assert_eq!(parsed.meta(), backup.meta());
    assert_eq!(parsed.header(), backup.header());

    // A truncated block no longer matches the declared lengths.
    let err = backup_store::parse_container(&bytes[..bytes.len() - 1]).unwrap_err();
    assert!(err.is_format());
    // A padded block does not match either.
    let mut padded = bytes.clone();
    padded.push(0);
    let err = backup_store::parse_container(&padded).unwrap_err();
    assert!(err.is_format());
}

#[test]
fn extract_reads_only_leading_bytes() {
    let backup = BackupFile::create_new(
        b"/tmp/extract.bin".to_vec(),
        Timestamp::new(9),
        sample_fs_meta(1000),
        vec![5; 1000],
    );
    let bytes = container_bytes(&backup);
    // Stop right after the metadata block: the payload is never needed.
    let leading = &bytes[..16 + backup.header().meta_size as usize];
    let (header, meta) = extract_header_and_meta(leading).expect("extract failed");
    assert_eq!(&header, backup.header());
    assert_eq!(&meta, backup.meta());

    let err = extract_header_and_meta(&bytes[..10]).unwrap_err();
    assert!(err.is_format());
}

#[test]
fn store_index_is_complete() {
    // After a rebuild, every store file has exactly one index entry and
    // every entry points back at its file.
    let mut manager = BackupManager::new(Config::new());
    assert_eq!(manager.infos().len(), 0);

    let mut files = Vec::new();
    for (name, version_count, payload) in [
        ("a.bak", 0u32, b"alpha".to_vec()),
        ("b.bak", 2u32, b"beta-content".to_vec()),
    ] {
        let mut backup = BackupFile::create_new(
            name.as_bytes().to_vec(),
            Timestamp::new(10),
            sample_fs_meta(payload.len() as u64),
            payload,
        );
        for _ in 0..version_count {
            let fs = sample_fs_meta(backup.file_bytes().len() as u64);
            let bytes = backup.file_bytes().clone();
            backup.update_backup(fs, bytes);
        }
        files.push(StoreFile {
            path: name.as_bytes().to_vec(),
            leading_bytes: container_bytes(&backup),
        });
    }
    manager.rebuild_index(&files).expect("rebuild failed");
    assert_eq!(manager.infos().len(), 2);
    assert_eq!(manager.infos()[0].backup_path, b"a.bak".to_vec());
    assert_eq!(manager.infos()[1].backup_path, b"b.bak".to_vec());
    assert_eq!(manager.infos()[0].meta.version().get(), 1);
    assert_eq!(manager.infos()[1].meta.version().get(), 3);

    // One corrupt file fails the whole rebuild and leaves the index as
    // it was.
    let mut corrupt = files;
    corrupt.push(StoreFile {
        path: b"c.bak".to_vec(),
        leading_bytes: vec![1, 2, 3],
    });
    let err = manager.rebuild_index(&corrupt).unwrap_err();
    assert!(err.is_format());
    assert_eq!(manager.infos().len(), 2);
}

#[test]
fn empty_file_round_trips() {
    // The smallest container: no payload, no path, no snapshot times.
    let backup = BackupFile::create_new(
        Vec::new(),
        Timestamp::new(0),
        FsMetadata::new(None, None, None, 0, FileKind::Unknown),
        Vec::new(),
    );
    assert_eq!(backup.header().meta_size, 48);
    assert_eq!(backup.header().file_size, 0);
    let compressed = backup.try_compress().expect("compression failed");
    let recovered = compressed.try_decompress().expect("decompression failed");
    assert_eq!(recovered.file_bytes().len(), 0);
    assert_eq!(recovered.meta().path().len(), 0);
    assert_eq!(recovered.meta().version().get(), 1);
    assert_eq!(recovered.meta().fs_meta().file_type(), FileKind::Unknown);
}

#[test]
fn garbage_input_is_a_compression_error() {
    let garbage = vec![0xAB; 64];
    let err = CompressedBackupFile::new(garbage).try_decompress().unwrap_err();
    assert!(err.is_compression());
}

#[test]
fn error_variants_report_their_class() {
    let io = backup_store::Error::Io("disk".to_string());
    assert!(io.is_io());
    assert!(!io.is_format());
    assert_eq!(io.message(), "disk");
    let fmt = backup_store::Error::Format("shape".to_string());
    assert!(fmt.is_format());
    let enc = backup_store::Error::Encoding("tag".to_string());
    assert!(enc.is_encoding());
    let comp = backup_store::Error::Compression("stream".to_string());
    assert!(comp.is_compression());
}
