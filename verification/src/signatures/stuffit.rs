//! StuffIt archives and StuffIt Deluxe segments
use crate::signatures::common::{
    magics_are, SignatureError, SignatureResult, CONFIDENCE_HIGH, CONFIDENCE_LOW,
    CONFIDENCE_MEDIUM,
};
use crate::structures::common::pattern_at;
use crate::structures::stuffit::{parse_stuffit_header, stuffit_header};
use crate::text::{dec, matches_at, push_dec};
use vstd::prelude::*;
use vstd::slice::slice_subrange;
use vstd::string::StringExecFns;

verus! {

/// Human readable descriptions
pub const DESCRIPTION: &'static str = "StuffIt archive";

pub const SEGMENT_DESCRIPTION: &'static str = "StuffIt Deluxe segment";

/// Classic StuffIt archives, and the text banner that StuffIt 5 archives begin with
pub fn stuffit_magic() -> (magics: Vec<Vec<u8>>)
    ensures
        magics_are(
            magics,
            seq![
                seq![0x53u8, 0x49, 0x54, 0x21],
                seq![0x53u8, 0x49, 0x54, 0x44],
                seq![0x53u8, 0x74, 0x75, 0x66, 0x66, 0x49, 0x74],
            ],
        ),
{
    vec![
        vec![0x53, 0x49, 0x54, 0x21],
        vec![0x53, 0x49, 0x54, 0x44],
        vec![0x53, 0x74, 0x75, 0x66, 0x66, 0x49, 0x74],
    ]
}

/// StuffIt Deluxe segments start with this, and nothing else identifies them
pub fn stuffit_segment_magic() -> (magics: Vec<Vec<u8>>)
    ensures
        magics_are(magics, seq![seq![0x53u8, 0x65, 0x66]]),
{
    vec![vec![0x53, 0x65, 0x66]]
}

/// "StuffIt", the banner of version 5 archives
pub open spec fn banner_magic() -> Seq<u8> {
    seq![0x53u8, 0x74, 0x75, 0x66, 0x66, 0x49, 0x74]
}

/// Validate a StuffIt archive signature
///
/// Version 5 archives are known by their banner alone. Classic archives carry their own total
/// size, and a second signature after the file count that confirms the match.
pub fn stuffit_parser(file_data: &[u8], offset: usize) -> (result: Result<
    SignatureResult,
    SignatureError,
>)
    requires
        offset <= file_data.len(),
    ensures
        ({
            let archive = file_data@.subrange(offset as int, file_data.len() as int);
            let header = stuffit_header(archive);
            if matches_at(file_data@, banner_magic(), offset as int) {
                result matches Ok(r) && r.describes(
                    offset as int,
                    0,
                    DESCRIPTION@ + ", version 5"@,
                    CONFIDENCE_MEDIUM,
                )
            } else if header is Some && header->0.total_size <= archive.len() {
                result matches Ok(r) && r.describes(
                    offset as int,
                    header->0.total_size as int,
                    DESCRIPTION@ + ", file count: "@ + dec(header->0.file_count as nat)
                        + ", total size: "@ + dec(header->0.total_size as nat) + " bytes"@,
                    CONFIDENCE_HIGH,
                )
            } else {
                result is Err
            }
        }),
{
    let banner = vec![0x53u8, 0x74, 0x75, 0x66, 0x66, 0x49, 0x74];
    if pattern_at(file_data, banner.as_slice(), offset) {
        let mut result = SignatureResult::new(offset, DESCRIPTION, CONFIDENCE_MEDIUM);
        result.description.append(", version 5");
        return Ok(result);
    }
    let available_data = file_data.len() - offset;
    let stuffit_data = slice_subrange(file_data, offset, file_data.len());
    if let Ok(stuffit_header) = parse_stuffit_header(stuffit_data) {
        if stuffit_header.total_size <= available_data {
            let mut result = SignatureResult::new(offset, DESCRIPTION, CONFIDENCE_HIGH);
            result.size = stuffit_header.total_size;
            result.description.append(", file count: ");
            push_dec(&mut result.description, stuffit_header.file_count as u64);
            result.description.append(", total size: ");
            push_dec(&mut result.description, stuffit_header.total_size as u64);
            result.description.append(" bytes");
            return Ok(result);
        }
    }
    Err(SignatureError)
}

/// Validate a StuffIt Deluxe segment signature
///
/// There is nothing here to validate: the magic is three bytes and no description of what
/// follows it is available, so this signature is only matched at the start of a file.
pub fn stuffit_segment_parser(_file_data: &[u8], offset: usize) -> (result: Result<
    SignatureResult,
    SignatureError,
>)
    ensures
        result matches Ok(r) && r.describes(offset as int, 0, SEGMENT_DESCRIPTION@, CONFIDENCE_LOW),
{
    Ok(SignatureResult::new(offset, SEGMENT_DESCRIPTION, CONFIDENCE_LOW))
}

} // verus!
