//! Adobe Flash SWF files
use crate::signatures::common::{magics_are, SignatureError, SignatureResult, CONFIDENCE_HIGH};
use crate::structures::swf::{compression_name, parse_swf_header, swf_header, SWFCompression, SWFHeader};
use crate::text::{dec, push_dec};
use vstd::prelude::*;
use vstd::slice::slice_subrange;
use vstd::string::StringExecFns;

verus! {

/// Human readable description
pub const DESCRIPTION: &'static str = "Adobe Flash SWF file";

/// SWF files start with one of these, according to how the body is compressed
pub fn swf_magic() -> (magics: Vec<Vec<u8>>)
    ensures
        magics_are(
            magics,
            seq![
                seq![0x46u8, 0x57, 0x53],
                seq![0x43u8, 0x57, 0x53],
                seq![0x5Au8, 0x57, 0x53],
            ],
        ),
{
    vec![
        vec![0x46, 0x57, 0x53],
        vec![0x43, 0x57, 0x53],
        vec![0x5A, 0x57, 0x53],
    ]
}

/// How an SWF file is described
pub open spec fn swf_description(header: SWFHeader) -> Seq<char> {
    DESCRIPTION@ + ", version: "@ + dec(header.version as nat) + ", "@ + compression_name(
        header.compression,
    ) + ", file size: "@ + dec(header.file_size as nat) + " bytes"@
}

/// An uncompressed file must all be there; the others are smaller than the length they report
pub open spec fn swf_fits(header: SWFHeader, available_data: int) -> bool {
    !(header.compression == SWFCompression::Uncompressed && header.file_size > available_data)
}

/// Validate an SWF signature
///
/// The header carries the length of the whole file, decompressed: that is the size of an
/// uncompressed file, while a compressed body is smaller than the length the header reports, so
/// its size is left unknown.
pub fn swf_parser(file_data: &[u8], offset: usize) -> (result: Result<
    SignatureResult,
    SignatureError,
>)
    requires
        offset <= file_data.len(),
    ensures
        result is Ok <==> {
            let header = swf_header(file_data@.subrange(offset as int, file_data.len() as int));
            header is Some && swf_fits(header->0, file_data.len() - offset)
        },
        result matches Ok(r) ==> {
            let header = swf_header(file_data@.subrange(offset as int, file_data.len() as int))->0;
            r.describes(
                offset as int,
                if header.compression == SWFCompression::Uncompressed {
                    header.file_size as int
                } else {
                    0
                },
                swf_description(header),
                CONFIDENCE_HIGH,
            )
        },
{
    let available_data = file_data.len() - offset;
    let swf_data = slice_subrange(file_data, offset, file_data.len());
    match parse_swf_header(swf_data) {
        Err(_) => Err(SignatureError),
        Ok(swf_header) => {
            let uncompressed = match swf_header.compression {
                SWFCompression::Uncompressed => true,
                _ => false,
            };
            if uncompressed && swf_header.file_size > available_data {
                return Err(SignatureError);
            }
            let mut result = SignatureResult::new(offset, DESCRIPTION, CONFIDENCE_HIGH);
            if uncompressed {
                result.size = swf_header.file_size;
            }
            result.description.append(", version: ");
            push_dec(&mut result.description, swf_header.version as u64);
            result.description.append(", ");
            result.description.append(swf_header.compression.name());
            result.description.append(", file size: ");
            push_dec(&mut result.description, swf_header.file_size as u64);
            result.description.append(" bytes");
            Ok(result)
        },
    }
}

} // verus!
