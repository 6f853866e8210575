//! JAR archives compressed with pack200
use crate::signatures::common::{
    byte_at, get_byte, magics_are, SignatureError, SignatureResult, CONFIDENCE_MEDIUM,
};
use crate::text::{dec, push_dec};
use vstd::prelude::*;
use vstd::string::StringExecFns;

verus! {

/// Human readable description
pub const DESCRIPTION: &'static str = "JAR archive compressed with pack200";

/// The archive version follows the magic, encoded with the variable length integer coding that
/// the format uses throughout. For every version ever released, minor then major, that coding
/// puts the two values in a byte each.
pub const MINOR_VERSION_OFFSET: usize = 4;

pub const MAJOR_VERSION_OFFSET: usize = 5;

pub const MAJOR_VERSION: u8 = 150;

pub const MAX_MINOR_VERSION: u8 = 7;

/// pack200 archives start with these magic bytes
pub fn pack200_magic() -> (magics: Vec<Vec<u8>>)
    ensures
        magics_are(magics, seq![seq![0xCAu8, 0xFE, 0xD0, 0x0D]]),
{
    vec![vec![0xCA, 0xFE, 0xD0, 0x0D]]
}

/// Validate a pack200 signature
///
/// What follows the version is a series of compressed bands whose lengths are themselves
/// encoded, so the size of the archive cannot be had without unpacking it.
pub fn pack200_parser(file_data: &[u8], offset: usize) -> (result: Result<
    SignatureResult,
    SignatureError,
>)
    requires
        offset + MAJOR_VERSION_OFFSET <= usize::MAX,
    ensures
        match (
            byte_at(file_data@, offset + MINOR_VERSION_OFFSET),
            byte_at(file_data@, offset + MAJOR_VERSION_OFFSET),
        ) {
            (Some(minor), Some(major)) => if major == MAJOR_VERSION && minor
                <= MAX_MINOR_VERSION {
                result matches Ok(r) && r.describes(
                    offset as int,
                    0,
                    DESCRIPTION@ + ", version: "@ + dec(major as nat) + "."@ + dec(minor as nat),
                    CONFIDENCE_MEDIUM,
                )
            } else {
                result is Err
            },
            _ => result is Err,
        },
{
    let minor_version = match get_byte(file_data, offset + MINOR_VERSION_OFFSET) {
        Some(minor_version) => minor_version,
        None => return Err(SignatureError),
    };
    let major_version = match get_byte(file_data, offset + MAJOR_VERSION_OFFSET) {
        Some(major_version) => major_version,
        None => return Err(SignatureError),
    };
    if major_version != MAJOR_VERSION || minor_version > MAX_MINOR_VERSION {
        return Err(SignatureError);
    }
    let mut result = SignatureResult::new(offset, DESCRIPTION, CONFIDENCE_MEDIUM);
    result.description.append(", version: ");
    push_dec(&mut result.description, major_version as u64);
    result.description.append(".");
    push_dec(&mut result.description, minor_version as u64);
    Ok(result)
}

} // verus!
