//! TIFF images
use crate::signatures::common::{magics_are, SignatureError, SignatureResult, CONFIDENCE_MEDIUM};
use crate::structures::common::endianness_name;
use crate::structures::tiff::{parse_tiff_header, tiff_header, TIFFHeader};
use crate::text::{dec, push_dec};
use vstd::prelude::*;
use vstd::slice::slice_subrange;
use vstd::string::StringExecFns;

verus! {

/// Human readable description
pub const DESCRIPTION: &'static str = "TIFF image data";

/// TIFF images start with a byte order mark and the version of the format
pub fn tiff_magic() -> (magics: Vec<Vec<u8>>)
    ensures
        magics_are(
            magics,
            seq![
                seq![0x4Du8, 0x4D, 0x00, 0x2A],
                seq![0x49u8, 0x49, 0x2A, 0x00],
            ],
        ),
{
    vec![
        vec![0x4D, 0x4D, 0x00, 0x2A],
        vec![0x49, 0x49, 0x2A, 0x00],
    ]
}

/// How a TIFF image is described
pub open spec fn tiff_description(header: TIFFHeader) -> Seq<char> {
    DESCRIPTION@ + ", "@ + endianness_name(header.endianness) + " endian, first directory: "@
        + dec(header.entry_count as nat) + " entries at offset "@ + dec(
        header.directory_offset as nat,
    )
}

/// Validate a TIFF signature
///
/// The image is a chain of directories, each pointing at the next and at data that may be
/// anywhere in the file, so its length is only known by following all of them; the size is left
/// unknown.
pub fn tiff_parser(file_data: &[u8], offset: usize) -> (result: Result<
    SignatureResult,
    SignatureError,
>)
    requires
        offset <= file_data.len(),
    ensures
        result is Ok <==> tiff_header(file_data@.subrange(offset as int, file_data.len() as int))
            is Some,
        result matches Ok(r) ==> r.describes(
            offset as int,
            0,
            tiff_description(
                tiff_header(file_data@.subrange(offset as int, file_data.len() as int))->0,
            ),
            CONFIDENCE_MEDIUM,
        ),
{
    let tiff_data = slice_subrange(file_data, offset, file_data.len());
    match parse_tiff_header(tiff_data) {
        Err(_) => Err(SignatureError),
        Ok(tiff_header) => {
            let mut result = SignatureResult::new(offset, DESCRIPTION, CONFIDENCE_MEDIUM);
            result.description.append(", ");
            result.description.append(tiff_header.endianness.name());
            result.description.append(" endian, first directory: ");
            push_dec(&mut result.description, tiff_header.entry_count as u64);
            result.description.append(" entries at offset ");
            push_dec(&mut result.description, tiff_header.directory_offset as u64);
            Ok(result)
        },
    }
}

} // verus!
