//! lrzip compressed data
use crate::signatures::common::{
    byte_at, get_byte, magics_are, SignatureError, SignatureResult, CONFIDENCE_MEDIUM,
};
use crate::text::{dec, push_dec};
use vstd::prelude::*;
use vstd::string::StringExecFns;

verus! {

/// Human readable description
pub const DESCRIPTION: &'static str = "lrzip compressed data";

pub const MAJOR_VERSION_OFFSET: usize = 4;

pub const MINOR_VERSION_OFFSET: usize = 5;

/// No release has ever carried a version outside of these
pub const MAX_MAJOR_VERSION: u8 = 1;

pub const MAX_MINOR_VERSION: u8 = 20;

/// lrzip files start with these magic bytes
pub fn lrzip_magic() -> (magics: Vec<Vec<u8>>)
    ensures
        magics_are(magics, seq![seq![0x4Cu8, 0x52, 0x5A, 0x49]]),
{
    vec![vec![0x4C, 0x52, 0x5A, 0x49]]
}

/// Validate an lrzip signature
///
/// There is nothing else in the header that can be checked without knowing which version wrote
/// it, and what follows the version differs between them, so the size is left unknown.
pub fn lrzip_parser(file_data: &[u8], offset: usize) -> (result: Result<
    SignatureResult,
    SignatureError,
>)
    requires
        offset + MINOR_VERSION_OFFSET <= usize::MAX,
    ensures
        match (
            byte_at(file_data@, offset + MAJOR_VERSION_OFFSET),
            byte_at(file_data@, offset + MINOR_VERSION_OFFSET),
        ) {
            (Some(major), Some(minor)) => if major <= MAX_MAJOR_VERSION && minor
                <= MAX_MINOR_VERSION {
                result matches Ok(r) && r.describes(
                    offset as int,
                    0,
                    DESCRIPTION@ + ", version: "@ + dec(major as nat) + "."@ + dec(minor as nat),
                    CONFIDENCE_MEDIUM,
                )
            } else {
                result is Err
            },
            _ => result is Err,
        },
{
    let major_version = match get_byte(file_data, offset + MAJOR_VERSION_OFFSET) {
        Some(major_version) => major_version,
        None => return Err(SignatureError),
    };
    let minor_version = match get_byte(file_data, offset + MINOR_VERSION_OFFSET) {
        Some(minor_version) => minor_version,
        None => return Err(SignatureError),
    };
    if major_version > MAX_MAJOR_VERSION || minor_version > MAX_MINOR_VERSION {
        return Err(SignatureError);
    }
    let mut result = SignatureResult::new(offset, DESCRIPTION, CONFIDENCE_MEDIUM);
    result.description.append(", version: ");
    push_dec(&mut result.description, major_version as u64);
    result.description.append(".");
    push_dec(&mut result.description, minor_version as u64);
    Ok(result)
}

} // verus!
