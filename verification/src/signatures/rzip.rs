//! rzip compressed data
use crate::signatures::common::{magics_are, SignatureError, SignatureResult, CONFIDENCE_MEDIUM};
use crate::structures::rzip::{parse_rzip_header, rzip_header, RzipHeader};
use crate::text::{dec, push_dec};
use vstd::prelude::*;
use vstd::slice::slice_subrange;
use vstd::string::StringExecFns;

verus! {

/// Human readable description
pub const DESCRIPTION: &'static str = "rzip compressed data";

/// rzip files start with these magic bytes
pub fn rzip_magic() -> (magics: Vec<Vec<u8>>)
    ensures
        magics_are(magics, seq![seq![0x52u8, 0x5A, 0x49, 0x50]]),
{
    vec![vec![0x52, 0x5A, 0x49, 0x50]]
}

/// How rzip data is described
pub open spec fn rzip_description(header: RzipHeader) -> Seq<char> {
    DESCRIPTION@ + ", version: "@ + dec(header.major_version as nat) + "."@ + dec(
        header.minor_version as nat,
    ) + ", uncompressed size: "@ + dec(header.uncompressed_size as nat) + " bytes"@
}

/// Validate an rzip signature
///
/// The header describes the size of the data before it was compressed, not the size of the
/// compressed data, so the size of the file itself is left unknown.
pub fn rzip_parser(file_data: &[u8], offset: usize) -> (result: Result<
    SignatureResult,
    SignatureError,
>)
    requires
        offset <= file_data.len(),
    ensures
        result is Ok <==> rzip_header(file_data@.subrange(offset as int, file_data.len() as int))
            is Some,
        result matches Ok(r) ==> r.describes(
            offset as int,
            0,
            rzip_description(
                rzip_header(file_data@.subrange(offset as int, file_data.len() as int))->0,
            ),
            CONFIDENCE_MEDIUM,
        ),
{
    let rzip_data = slice_subrange(file_data, offset, file_data.len());
    match parse_rzip_header(rzip_data) {
        Err(_) => Err(SignatureError),
        Ok(rzip_header) => {
            let mut result = SignatureResult::new(offset, DESCRIPTION, CONFIDENCE_MEDIUM);
            result.description.append(", version: ");
            push_dec(&mut result.description, rzip_header.major_version as u64);
            result.description.append(".");
            push_dec(&mut result.description, rzip_header.minor_version as u64);
            result.description.append(", uncompressed size: ");
            push_dec(&mut result.description, rzip_header.uncompressed_size as u64);
            result.description.append(" bytes");
            Ok(result)
        },
    }
}

} // verus!
