//! XAR archives
use crate::signatures::common::{magics_are, SignatureError, SignatureResult, CONFIDENCE_HIGH};
use crate::structures::xar::{
    checksum_algorithm_name, checksum_name, parse_xar_header, xar_header, XARHeader,
};
use crate::text::{dec, push_dec};
use vstd::prelude::*;
use vstd::slice::slice_subrange;
use vstd::string::StringExecFns;

verus! {

/// Human readable description
pub const DESCRIPTION: &'static str = "XAR archive";

/// XAR archives start with these magic bytes
pub fn xar_magic() -> (magics: Vec<Vec<u8>>)
    ensures
        magics_are(magics, seq![seq![0x78u8, 0x61, 0x72, 0x21]]),
{
    vec![vec![0x78, 0x61, 0x72, 0x21]]
}

/// How an archive is described
pub open spec fn xar_description(header: XARHeader) -> Seq<char> {
    DESCRIPTION@ + ", version: "@ + dec(header.version as nat) + ", checksum algorithm: "@
        + checksum_name(header.checksum_algorithm as nat)->0 + ", table of contents: "@ + dec(
        header.toc_compressed_size as nat,
    ) + " bytes compressed, "@ + dec(header.toc_uncompressed_size as nat)
        + " bytes uncompressed"@
}

/// Validate a XAR archive signature
///
/// The header describes the table of contents but not the heap of file data that follows it,
/// whose length is only described by the table of contents itself, so the size reported here
/// covers the header and the table of contents alone.
pub fn xar_parser(file_data: &[u8], offset: usize) -> (result: Result<
    SignatureResult,
    SignatureError,
>)
    requires
        offset <= file_data.len(),
    ensures
        result is Ok <==> xar_header(file_data@.subrange(offset as int, file_data.len() as int))
            is Some,
        result matches Ok(r) ==> {
            let header = xar_header(file_data@.subrange(offset as int, file_data.len() as int))->0;
            r.describes(
                offset as int,
                header.header_size + header.toc_compressed_size,
                xar_description(header),
                CONFIDENCE_HIGH,
            )
        },
{
    let xar_data = slice_subrange(file_data, offset, file_data.len());
    match parse_xar_header(xar_data) {
        Err(_) => Err(SignatureError),
        Ok(xar_header) => {
            let mut result = SignatureResult::new(offset, DESCRIPTION, CONFIDENCE_HIGH);
            result.size = xar_header.header_size + xar_header.toc_compressed_size;
            result.description.append(", version: ");
            push_dec(&mut result.description, xar_header.version as u64);
            result.description.append(", checksum algorithm: ");
            result.description.append(checksum_algorithm_name(xar_header.checksum_algorithm));
            result.description.append(", table of contents: ");
            push_dec(&mut result.description, xar_header.toc_compressed_size as u64);
            result.description.append(" bytes compressed, ");
            push_dec(&mut result.description, xar_header.toc_uncompressed_size);
            result.description.append(" bytes uncompressed");
            Ok(result)
        },
    }
}

} // verus!
