use std::io::Write;

use rv_core::archive::{extract_binary, entry_matches_binary, ArchiveError};

fn gzip_tar(entries: &[(&str, &[u8])]) -> Vec<u8> {
    let mut builder = tar::Builder::new(Vec::new());
    for (name, data) in entries {
        let mut header = tar::Header::new_gnu();
        header.set_size(data.len() as u64);
        header.set_mode(0o644);
        header.set_cksum();
        builder.append_data(&mut header, name, *data).unwrap();
    }
    let tar_bytes = builder.into_inner().unwrap();
    let mut encoder =
        flate2::write::GzEncoder::new(Vec::new(), flate2::Compression::default());
    encoder.write_all(&tar_bytes).unwrap();
    encoder.finish().unwrap()
}

#[test]
fn extract_finds_binary_anywhere_in_archive() {
    let archive = gzip_tar(&[
        ("docs/readme.txt", b"hello"),
        ("uv-dist/uv", b"BINARY-CONTENT"),
        ("uv-dist/license", b"mit"),
    ]);
    let data = extract_binary(&archive).unwrap();
    assert_eq!(data, b"BINARY-CONTENT");
}

#[test]
fn extract_takes_first_matching_entry() {
    let archive = gzip_tar(&[("a/uv.exe", b"first"), ("b/uv", b"second")]);
    let data = extract_binary(&archive).unwrap();
    assert_eq!(data, b"first");
}

#[test]
fn missing_binary_reports_binary_not_found() {
    let archive = gzip_tar(&[("docs/readme.txt", b"hello"), ("bin/uvx", b"other")]);
    match extract_binary(&archive) {
        Err(ArchiveError::BinaryNotFoundInArchive) => {}
        other => panic!("unexpected result: {:?}", other),
    }
}

#[test]
fn corrupt_archive_is_unreadable() {
    let garbage = vec![0x13u8, 0x37, 0x00, 0xff, 0x42];
    match extract_binary(&garbage) {
        Err(ArchiveError::Unreadable(_)) => {}
        other => panic!("unexpected result: {:?}", other),
    }
}

#[test]
fn binary_entry_matching_is_by_final_component() {
    assert!(entry_matches_binary("uv"));
    assert!(entry_matches_binary("dist/uv"));
    assert!(entry_matches_binary("dist/uv/"));
    assert!(entry_matches_binary("a/b/uv.exe"));
    assert!(!entry_matches_binary("dist/uvx"));
    assert!(!entry_matches_binary("dist/my-uv"));
    assert!(!entry_matches_binary("uv/readme"));
    assert!(!entry_matches_binary(""));
}
