//! KGB archives
use crate::signatures::common::{magics_are, SignatureError, SignatureResult, CONFIDENCE_MEDIUM};
use crate::text::{chars_of, printable_run, push_bytes, read_printable_run, trim_spaces, trimmed};
use vstd::prelude::*;
use vstd::string::StringExecFns;

verus! {

/// Human readable description
pub const DESCRIPTION: &'static str = "KGB archive";

/// The magic is followed by the version of the archiver that wrote the archive
pub const VERSION_OFFSET: usize = 10;

pub const MAX_VERSION_SIZE: usize = 16;

/// KGB archives start with this string
pub fn kgb_magic() -> (magics: Vec<Vec<u8>>)
    ensures
        magics_are(magics, seq![seq![
            0x4Bu8, 0x47, 0x42, 0x5F, 0x61, 0x72, 0x63, 0x68, 0x20, 0x2D,
        ]]),
{
    vec![vec![0x4B, 0x47, 0x42, 0x5F, 0x61, 0x72, 0x63, 0x68, 0x20, 0x2D]]
}

/// The version text of an archive whose magic is at `offset`: the printable text that follows
/// the magic, without its surrounding spaces
pub open spec fn kgb_version(data: Seq<u8>, offset: int) -> Seq<u8> {
    trim_spaces(printable_run(data, offset + VERSION_OFFSET, MAX_VERSION_SIZE as int))
}

/// Validate a KGB archive signature
///
/// The version is printable text; anything else is not a KGB archive. The archive header does
/// not describe the length of the archive, so the size is left unknown.
pub fn kgb_parser(file_data: &[u8], offset: usize) -> (result: Result<
    SignatureResult,
    SignatureError,
>)
    requires
        offset + VERSION_OFFSET + MAX_VERSION_SIZE <= usize::MAX,
    ensures
        match result {
            Ok(r) => {
                &&& offset + VERSION_OFFSET <= file_data.len()
                &&& kgb_version(file_data@, offset as int).len() > 0
                &&& r.describes(
                    offset as int,
                    0,
                    DESCRIPTION@ + ", version: "@ + chars_of(
                        kgb_version(file_data@, offset as int),
                    ),
                    CONFIDENCE_MEDIUM,
                )
            },
            Err(_) => offset + VERSION_OFFSET > file_data.len() || kgb_version(
                file_data@,
                offset as int,
            ).len() == 0,
        },
{
    let version = match read_printable_run(file_data, offset + VERSION_OFFSET, MAX_VERSION_SIZE) {
        Some(version) => trimmed(version.as_slice()),
        None => return Err(SignatureError),
    };
    if version.len() == 0 {
        return Err(SignatureError);
    }
    let mut result = SignatureResult::new(offset, DESCRIPTION, CONFIDENCE_MEDIUM);
    result.description.append(", version: ");
    push_bytes(&mut result.description, version.as_slice());
    Ok(result)
}

} // verus!
