//! EBML documents
use crate::signatures::common::{magics_are, SignatureError, SignatureResult, CONFIDENCE_HIGH};
use crate::structures::ebml::{ebml_header, parse_ebml_header};
use crate::text::{chars_of, dec, push_bytes, push_dec};
use vstd::prelude::*;
use vstd::slice::slice_subrange;
use vstd::string::StringExecFns;

verus! {

/// Human readable description
pub const DESCRIPTION: &'static str = "EBML data";

/// Every EBML document starts with the ID of its header element
pub fn ebml_magic() -> (magics: Vec<Vec<u8>>)
    ensures
        magics_are(magics, seq![seq![0x1Au8, 0x45, 0xDF, 0xA3]]),
{
    vec![vec![0x1A, 0x45, 0xDF, 0xA3]]
}

/// Validate an EBML signature
///
/// The header describes only itself. What follows it is a segment whose own length may be
/// unknown even to a reader of the file, so no size is reported.
pub fn ebml_parser(file_data: &[u8], offset: usize) -> (result: Result<
    SignatureResult,
    SignatureError,
>)
    requires
        offset <= file_data.len(),
    ensures
        result is Ok <==> ebml_header(file_data@.subrange(offset as int, file_data.len() as int))
            is Some,
        result matches Ok(r) ==> {
            let (header_size, doc_type) = ebml_header(
                file_data@.subrange(offset as int, file_data.len() as int),
            )->0;
            r.describes(
                offset as int,
                0,
                DESCRIPTION@ + ", doc type: \""@ + chars_of(doc_type) + "\", header size: "@ + dec(
                    header_size,
                ) + " bytes"@,
                CONFIDENCE_HIGH,
            )
        },
{
    let ebml_data = slice_subrange(file_data, offset, file_data.len());
    match parse_ebml_header(ebml_data) {
        Err(_) => Err(SignatureError),
        Ok(ebml_header) => {
            let mut result = SignatureResult::new(offset, DESCRIPTION, CONFIDENCE_HIGH);
            result.description.append(", doc type: \"");
            push_bytes(&mut result.description, ebml_header.doc_type.as_slice());
            result.description.append("\", header size: ");
            push_dec(&mut result.description, ebml_header.header_size as u64);
            result.description.append(" bytes");
            Ok(result)
        },
    }
}

} // verus!
