//! MySQL table definition, index and data files
//!
//! None of these files describes its own length, and their magics are two and three bytes, so
//! all of them are matched only at the start of a file and none of them reports a size.
use crate::signatures::common::{magics_are, SignatureError, SignatureResult, CONFIDENCE_LOW};
use vstd::prelude::*;

verus! {

/// Human readable descriptions
pub const FRM_DESCRIPTION: &'static str = "MySQL table definition file";

pub const MISAM_INDEX_DESCRIPTION: &'static str = "MySQL MISAM index file";

pub const MISAM_DATA_DESCRIPTION: &'static str = "MySQL MISAM compressed data file";

pub const ISAM_INDEX_DESCRIPTION: &'static str = "MySQL ISAM index file";

pub const ISAM_DATA_DESCRIPTION: &'static str = "MySQL ISAM compressed data file";

/// A table definition file starts with this
pub fn frm_magic() -> (magics: Vec<Vec<u8>>)
    ensures
        magics_are(magics, seq![seq![0xFEu8, 0x01]]),
{
    vec![vec![0xFE, 0x01]]
}

/// The index and data files of the two storage engines each start with their own byte
pub fn misam_index_magic() -> (magics: Vec<Vec<u8>>)
    ensures
        magics_are(magics, seq![seq![0xFEu8, 0xFE, 0x03]]),
{
    vec![vec![0xFE, 0xFE, 0x03]]
}

pub fn misam_data_magic() -> (magics: Vec<Vec<u8>>)
    ensures
        magics_are(magics, seq![seq![0xFEu8, 0xFE, 0x07]]),
{
    vec![vec![0xFE, 0xFE, 0x07]]
}

pub fn isam_index_magic() -> (magics: Vec<Vec<u8>>)
    ensures
        magics_are(magics, seq![seq![0xFEu8, 0xFE, 0x05]]),
{
    vec![vec![0xFE, 0xFE, 0x05]]
}

pub fn isam_data_magic() -> (magics: Vec<Vec<u8>>)
    ensures
        magics_are(magics, seq![seq![0xFEu8, 0xFE, 0x06]]),
{
    vec![vec![0xFE, 0xFE, 0x06]]
}

/// A result that reports the format alone
fn describe(offset: usize, description: &str) -> (result: Result<SignatureResult, SignatureError>)
    ensures
        result matches Ok(r) && r.describes(offset as int, 0, description@, CONFIDENCE_LOW),
{
    Ok(SignatureResult::new(offset, description, CONFIDENCE_LOW))
}

/// Validate a table definition file signature
pub fn frm_parser(_file_data: &[u8], offset: usize) -> (result: Result<
    SignatureResult,
    SignatureError,
>)
    ensures
        result matches Ok(r) && r.describes(offset as int, 0, FRM_DESCRIPTION@, CONFIDENCE_LOW),
{
    describe(offset, FRM_DESCRIPTION)
}

/// Validate a MISAM index file signature
pub fn misam_index_parser(_file_data: &[u8], offset: usize) -> (result: Result<
    SignatureResult,
    SignatureError,
>)
    ensures
        result matches Ok(r) && r.describes(
            offset as int,
            0,
            MISAM_INDEX_DESCRIPTION@,
            CONFIDENCE_LOW,
        ),
{
    describe(offset, MISAM_INDEX_DESCRIPTION)
}

/// Validate a MISAM data file signature
pub fn misam_data_parser(_file_data: &[u8], offset: usize) -> (result: Result<
    SignatureResult,
    SignatureError,
>)
    ensures
        result matches Ok(r) && r.describes(
            offset as int,
            0,
            MISAM_DATA_DESCRIPTION@,
            CONFIDENCE_LOW,
        ),
{
    describe(offset, MISAM_DATA_DESCRIPTION)
}

/// Validate an ISAM index file signature
pub fn isam_index_parser(_file_data: &[u8], offset: usize) -> (result: Result<
    SignatureResult,
    SignatureError,
>)
    ensures
        result matches Ok(r) && r.describes(
            offset as int,
            0,
            ISAM_INDEX_DESCRIPTION@,
            CONFIDENCE_LOW,
        ),
{
    describe(offset, ISAM_INDEX_DESCRIPTION)
}

/// Validate an ISAM data file signature
pub fn isam_data_parser(_file_data: &[u8], offset: usize) -> (result: Result<
    SignatureResult,
    SignatureError,
>)
    ensures
        result matches Ok(r) && r.describes(
            offset as int,
            0,
            ISAM_DATA_DESCRIPTION@,
            CONFIDENCE_LOW,
        ),
{
    describe(offset, ISAM_DATA_DESCRIPTION)
}

} // verus!
