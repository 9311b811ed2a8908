//! Reading the metadata entry of a mod archive. The archive's bytes come from
//! the caller; decoding the entry's JSON is left to the caller too.

use vstd::prelude::*;
use std::io::Read;

verus! {

/// The kinds of failure of a zip archive read.
#[derive(Clone, Copy, Debug, PartialEq, Eq, Structural)]
pub enum ZipFault {
    Io,
    InvalidArchive,
    UnsupportedArchive,
    FileNotFound,
}

/// Why a mod archive could not be read.
#[derive(Clone, Copy, Debug, PartialEq, Eq, Structural)]
pub enum ArchiveError {
    /// Reading the archive's data failed.
    Io,
    /// The bytes are not a zip archive.
    InvalidArchive,
    /// The archive uses a feature that cannot be read.
    UnsupportedArchive,
}

/// The name of the metadata entry of a mod archive.
pub open spec fn metadata_entry_name() -> Seq<char> {
    "weave.mod.json"@
}

/// What looking up the entry called `name` in the zip archive `archive`
/// gives: its decompressed bytes, or the kind of failure.
pub uninterp spec fn zip_lookup_of(archive: Seq<u8>, name: Seq<char>) -> Result<Seq<u8>, ZipFault>;

/// Relies on zip's `ZipArchive::new` and `ZipArchive::by_name`, then reading
/// the entry to its end: the outcome depends on the archive and the name
/// alone. zip's `ZipError` is mapped to its kind, one variant for one.
#[verifier::external_body]
fn zip_entry(archive: Vec<u8>, name: &str) -> (r: Result<Vec<u8>, ZipFault>)
    ensures
        match r {
            Ok(b) => zip_lookup_of(archive@, name@) == Ok::<Seq<u8>, ZipFault>(b@),
            Err(f) => zip_lookup_of(archive@, name@) == Err::<Seq<u8>, ZipFault>(f),
        },
{
    let found = zip::ZipArchive::new(std::io::Cursor::new(archive)).and_then(|mut zip| {
        let mut out: Vec<u8> = Vec::new();
        zip.by_name(name)?.read_to_end(&mut out)?;
        Ok(out)
    });
    match found {
        Ok(b) => Ok(b),
        Err(zip::result::ZipError::Io(_)) => Err(ZipFault::Io),
        Err(zip::result::ZipError::InvalidArchive(_)) => Err(ZipFault::InvalidArchive),
        Err(zip::result::ZipError::UnsupportedArchive(_)) => Err(ZipFault::UnsupportedArchive),
        Err(zip::result::ZipError::FileNotFound) => Err(ZipFault::FileNotFound),
    }
}

/// The library's error for a zip failure other than a missing entry.
pub fn archive_error(f: ZipFault) -> (r: Option<ArchiveError>)
    ensures
        r == (match f {
            ZipFault::Io => Some(ArchiveError::Io),
            ZipFault::InvalidArchive => Some(ArchiveError::InvalidArchive),
            ZipFault::UnsupportedArchive => Some(ArchiveError::UnsupportedArchive),
            ZipFault::FileNotFound => None,
        }),
{
    match f {
        ZipFault::Io => Some(ArchiveError::Io),
        ZipFault::InvalidArchive => Some(ArchiveError::InvalidArchive),
        ZipFault::UnsupportedArchive => Some(ArchiveError::UnsupportedArchive),
        ZipFault::FileNotFound => None,
    }
}

/// The bytes of the metadata entry of a mod archive: none when the archive
/// has no such entry, an error when it cannot be read.
pub fn read_mod_config(archive: Vec<u8>) -> (r: Result<Option<Vec<u8>>, ArchiveError>)
    ensures
        match zip_lookup_of(archive@, metadata_entry_name()) {
            Ok(b) => r matches Ok(Some(v)) && v@ == b,
            Err(ZipFault::FileNotFound) => r matches Ok(None),
            Err(ZipFault::Io) => r == Err::<Option<Vec<u8>>, ArchiveError>(ArchiveError::Io),
            Err(ZipFault::InvalidArchive) => r == Err::<Option<Vec<u8>>, ArchiveError>(
                ArchiveError::InvalidArchive,
            ),
            Err(ZipFault::UnsupportedArchive) => r == Err::<Option<Vec<u8>>, ArchiveError>(
                ArchiveError::UnsupportedArchive,
            ),
        },
{
    match zip_entry(archive, "weave.mod.json") {
        Ok(b) => Ok(Some(b)),
        Err(f) => match archive_error(f) {
            Some(err) => Err(err),
            None => Ok(None),
        },
    }
}

} // verus!
