//! LZMA compressed data behind the alternative header
use crate::signatures::common::{
    byte_at, get_byte, magics_are, SignatureError, SignatureResult, CONFIDENCE_MEDIUM,
};
use crate::text::{hex_byte, push_hex_byte};
use vstd::prelude::*;
use vstd::string::StringExecFns;

verus! {

/// Human readable description
pub const DESCRIPTION: &'static str = "LZMA compressed data, alternative header";

/// The properties byte that follows the magic encodes lc, lp and pb as ((pb * 5) + lp) * 9 + lc
pub const PROPERTIES_OFFSET: usize = 6;

pub const MAX_PROPERTIES: u8 = 224;

/// The alternative LZMA header starts with these magic bytes
pub fn lzma_new_magic() -> (magics: Vec<Vec<u8>>)
    ensures
        magics_are(magics, seq![seq![0xFFu8, 0x4C, 0x5A, 0x4D, 0x41, 0x00]]),
{
    vec![vec![0xFF, 0x4C, 0x5A, 0x4D, 0x41, 0x00]]
}

/// Validate an alternative LZMA header signature
///
/// Nothing in this header describes the length of the stream that follows it, so the size is
/// left unknown.
pub fn lzma_new_parser(file_data: &[u8], offset: usize) -> (result: Result<
    SignatureResult,
    SignatureError,
>)
    requires
        offset + PROPERTIES_OFFSET <= usize::MAX,
    ensures
        match byte_at(file_data@, offset + PROPERTIES_OFFSET) {
            Some(properties) => if properties <= MAX_PROPERTIES {
                result matches Ok(r) && r.describes(
                    offset as int,
                    0,
                    DESCRIPTION@ + ", properties: "@ + hex_byte(properties),
                    CONFIDENCE_MEDIUM,
                )
            } else {
                result is Err
            },
            None => result is Err,
        },
{
    let properties = match get_byte(file_data, offset + PROPERTIES_OFFSET) {
        Some(properties) => properties,
        None => return Err(SignatureError),
    };
    if properties > MAX_PROPERTIES {
        return Err(SignatureError);
    }
    let mut result = SignatureResult::new(offset, DESCRIPTION, CONFIDENCE_MEDIUM);
    result.description.append(", properties: ");
    push_hex_byte(&mut result.description, properties);
    Ok(result)
}

} // verus!
