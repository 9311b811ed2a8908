use std::io::{Cursor, Write};
use weave_manager::archive::{archive_error, read_mod_config, ArchiveError, ZipFault};

fn zip_with(entries: &[(&str, &[u8])]) -> Vec<u8> {
    let mut w = zip::ZipWriter::new(Cursor::new(Vec::new()));
    let opts = zip::write::FileOptions::default().compression_method(zip::CompressionMethod::Stored);
    for (name, data) in entries {
        w.start_file(*name, opts).unwrap();
        w.write_all(data).unwrap();
    }
    w.finish().unwrap().into_inner()
}

#[test]
fn metadata_entry_is_read() {
    let body = br#"{"name":"Mod","author":"A"}"#;
    let bytes = zip_with(&[("other.txt", b"x"), ("weave.mod.json", body)]);
    assert_eq!(read_mod_config(bytes), Ok(Some(body.to_vec())));
}

#[test]
fn missing_metadata_entry_is_none() {
    let bytes = zip_with(&[("other.txt", b"x")]);
    assert_eq!(read_mod_config(bytes), Ok(None));
}

#[test]
fn non_archive_is_an_error() {
    assert_eq!(read_mod_config(b"not a zip".to_vec()), Err(ArchiveError::InvalidArchive));
}

#[test]
fn fault_mapping() {
    assert_eq!(archive_error(ZipFault::FileNotFound), None);
    assert_eq!(archive_error(ZipFault::Io), Some(ArchiveError::Io));
    assert_eq!(archive_error(ZipFault::InvalidArchive), Some(ArchiveError::InvalidArchive));
    assert_eq!(archive_error(ZipFault::UnsupportedArchive), Some(ArchiveError::UnsupportedArchive));
}
