//! Windows PE binaries
use crate::signatures::common::{magics_are, SignatureError, SignatureResult, CONFIDENCE_MEDIUM};
use crate::structures::pe::{machine_name, machine_type_name, parse_pe_header, pe_header};
use vstd::prelude::*;
use vstd::slice::slice_subrange;
use vstd::string::StringExecFns;

verus! {

/// Human readable description
pub const DESCRIPTION: &'static str = "Windows PE binary";

/// PE file magic
///
/// Only the two bytes that begin the DOS header are matched here; the rest of the header varies
/// between linkers and DOS stubs. What makes a match a PE binary is checked by the parser: the
/// reserved fields of the DOS header must be zero, and the offset it holds must point at a PE
/// header with a known machine type.
pub fn pe_magic() -> (magics: Vec<Vec<u8>>)
    ensures
        magics_are(magics, seq![seq![0x4Du8, 0x5A]]),
{
    vec![vec![0x4D, 0x5A]]
}

/// Validate a PE header
///
/// What makes a match a PE binary is checked here: the reserved fields of the DOS header must be
/// zero, and the offset it holds must point at a PE header with a known machine type.
pub fn pe_parser(file_data: &[u8], offset: usize) -> (result: Result<
    SignatureResult,
    SignatureError,
>)
    requires
        offset <= file_data.len(),
    ensures
        result is Ok <==> pe_header(file_data@.subrange(offset as int, file_data.len() as int))
            is Some,
        result matches Ok(r) ==> {
            let header = pe_header(file_data@.subrange(offset as int, file_data.len() as int))->0;
            r.describes(
                offset as int,
                0,
                DESCRIPTION@ + ", machine type: "@ + machine_type_name(header.machine as nat)->0,
                CONFIDENCE_MEDIUM,
            )
        },
{
    let pe_data = slice_subrange(file_data, offset, file_data.len());
    match parse_pe_header(pe_data) {
        Err(_) => Err(SignatureError),
        Ok(pe_header) => match machine_name(pe_header.machine) {
            Some(name) => {
                let mut result = SignatureResult::new(offset, DESCRIPTION, CONFIDENCE_MEDIUM);
                result.description.append(", machine type: ");
                result.description.append(name);
                Ok(result)
            },
            None => Err(SignatureError),
        },
    }
}

} // verus!
