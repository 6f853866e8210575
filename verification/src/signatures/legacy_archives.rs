//! Archive formats of little documentation, recognised by their magic alone
//!
//! None of these headers describes the length of the archive, so none of these parsers reports a
//! size; they exist to report the format, and to name the version where the header carries one.
use crate::signatures::common::{
    byte_at, get_byte, magics_are, SignatureError, SignatureResult, CONFIDENCE_LOW,
    CONFIDENCE_MEDIUM,
};
use crate::text::{dec, push_dec};
use vstd::prelude::*;
use vstd::string::StringExecFns;

verus! {

/// Human readable descriptions
pub const HPACK_DESCRIPTION: &'static str = "HPACK archive";

pub const JAM_DESCRIPTION: &'static str = "JAM archive";

pub const PARITY_DESCRIPTION: &'static str = "PARity archive";

pub const BORG_DESCRIPTION: &'static str = "Borg backup archive segment";

pub const BSA_DESCRIPTION: &'static str = "BSA archive";

pub const LBR_DESCRIPTION: &'static str = "LBR archive";

/// The version of a BSA archive follows the magic bytes
pub const BSA_VERSION_OFFSET: usize = 4;

/// HPACK archives start with this
pub fn hpack_magic() -> (magics: Vec<Vec<u8>>)
    ensures
        magics_are(magics, seq![seq![0x48u8, 0x50, 0x41, 0x4B]]),
{
    vec![vec![0x48, 0x50, 0x41, 0x4B]]
}

/// JAM archives start with this
pub fn jam_magic() -> (magics: Vec<Vec<u8>>)
    ensures
        magics_are(magics, seq![seq![0xE9u8, 0x2C, 0x01, 0x4A, 0x41, 0x4D]]),
{
    vec![vec![0xE9, 0x2C, 0x01, 0x4A, 0x41, 0x4D]]
}

/// PARity archives start with this
pub fn parity_magic() -> (magics: Vec<Vec<u8>>)
    ensures
        magics_are(magics, seq![seq![0x50u8, 0x41, 0x52, 0x00]]),
{
    vec![vec![0x50, 0x41, 0x52, 0x00]]
}

/// Borg backup segments start with this
pub fn borg_magic() -> (magics: Vec<Vec<u8>>)
    ensures
        magics_are(magics, seq![seq![0x42u8, 0x4F, 0x52, 0x47, 0x5F, 0x53, 0x45, 0x47]]),
{
    vec![vec![0x42, 0x4F, 0x52, 0x47, 0x5F, 0x53, 0x45, 0x47]]
}

/// BSA archives start with the magic and the version, of which two are known
pub fn bsa_magic() -> (magics: Vec<Vec<u8>>)
    ensures
        magics_are(
            magics,
            seq![
                seq![0x42u8, 0x53, 0x41, 0x00, 0x67, 0x00, 0x00, 0x00],
                seq![0x42u8, 0x53, 0x41, 0x00, 0x68, 0x00, 0x00, 0x00],
            ],
        ),
{
    vec![
        vec![0x42, 0x53, 0x41, 0x00, 0x67, 0x00, 0x00, 0x00],
        vec![0x42, 0x53, 0x41, 0x00, 0x68, 0x00, 0x00, 0x00],
    ]
}

/// The first directory entry of an LBR archive names the directory itself, with a status byte of
/// zero and a blank file name
pub fn lbr_magic() -> (magics: Vec<Vec<u8>>)
    ensures
        magics_are(magics, seq![seq![
            0x00u8, 0x20, 0x20, 0x20, 0x20, 0x20, 0x20, 0x20, 0x20, 0x20, 0x20, 0x20,
        ]]),
{
    vec![vec![0x00, 0x20, 0x20, 0x20, 0x20, 0x20, 0x20, 0x20, 0x20, 0x20, 0x20, 0x20]]
}

/// A result that reports the format alone
fn describe(offset: usize, description: &str, confidence: u8) -> (result: SignatureResult)
    ensures
        result.describes(offset as int, 0, description@, confidence),
{
    SignatureResult::new(offset, description, confidence)
}

/// Validate an HPACK archive signature
pub fn hpack_parser(_file_data: &[u8], offset: usize) -> (result: Result<
    SignatureResult,
    SignatureError,
>)
    ensures
        result matches Ok(r) && r.describes(offset as int, 0, HPACK_DESCRIPTION@, CONFIDENCE_LOW),
{
    Ok(describe(offset, HPACK_DESCRIPTION, CONFIDENCE_LOW))
}

/// Validate a JAM archive signature
pub fn jam_parser(_file_data: &[u8], offset: usize) -> (result: Result<
    SignatureResult,
    SignatureError,
>)
    ensures
        result matches Ok(r) && r.describes(offset as int, 0, JAM_DESCRIPTION@, CONFIDENCE_MEDIUM),
{
    Ok(describe(offset, JAM_DESCRIPTION, CONFIDENCE_MEDIUM))
}

/// Validate a PARity archive signature
pub fn parity_parser(_file_data: &[u8], offset: usize) -> (result: Result<
    SignatureResult,
    SignatureError,
>)
    ensures
        result matches Ok(r) && r.describes(offset as int, 0, PARITY_DESCRIPTION@, CONFIDENCE_LOW),
{
    Ok(describe(offset, PARITY_DESCRIPTION, CONFIDENCE_LOW))
}

/// Validate a Borg backup segment signature
pub fn borg_parser(_file_data: &[u8], offset: usize) -> (result: Result<
    SignatureResult,
    SignatureError,
>)
    ensures
        result matches Ok(r) && r.describes(
            offset as int,
            0,
            BORG_DESCRIPTION@,
            CONFIDENCE_MEDIUM,
        ),
{
    Ok(describe(offset, BORG_DESCRIPTION, CONFIDENCE_MEDIUM))
}

/// Validate a BSA archive signature: the version byte has to be there, and is reported
pub fn bsa_parser(file_data: &[u8], offset: usize) -> (result: Result<
    SignatureResult,
    SignatureError,
>)
    requires
        offset + BSA_VERSION_OFFSET <= usize::MAX,
    ensures
        match byte_at(file_data@, offset + BSA_VERSION_OFFSET) {
            Some(version) => result matches Ok(r) && r.describes(
                offset as int,
                0,
                BSA_DESCRIPTION@ + ", version: "@ + dec(version as nat),
                CONFIDENCE_MEDIUM,
            ),
            None => result is Err,
        },
{
    let version = match get_byte(file_data, offset + BSA_VERSION_OFFSET) {
        Some(version) => version,
        None => return Err(SignatureError),
    };
    let mut result = describe(offset, BSA_DESCRIPTION, CONFIDENCE_MEDIUM);
    result.description.append(", version: ");
    push_dec(&mut result.description, version as u64);
    Ok(result)
}

/// Validate an LBR archive signature
pub fn lbr_parser(_file_data: &[u8], offset: usize) -> (result: Result<
    SignatureResult,
    SignatureError,
>)
    ensures
        result matches Ok(r) && r.describes(offset as int, 0, LBR_DESCRIPTION@, CONFIDENCE_LOW),
{
    Ok(describe(offset, LBR_DESCRIPTION, CONFIDENCE_LOW))
}

} // verus!
