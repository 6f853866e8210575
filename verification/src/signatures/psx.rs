//! Sony PlayStation executables
use crate::signatures::common::{magics_are, SignatureError, SignatureResult, CONFIDENCE_HIGH};
use crate::structures::psx::{parse_psx_header, psx_header, PSXHeader};
use crate::text::{dec, hex_digits, push_dec, push_hex_digits};
use vstd::prelude::*;
use vstd::slice::slice_subrange;
use vstd::string::StringExecFns;

verus! {

/// Human readable description
pub const DESCRIPTION: &'static str = "Sony PlayStation executable";

/// PlayStation executables start with this
pub fn psx_magic() -> (magics: Vec<Vec<u8>>)
    ensures
        magics_are(magics, seq![seq![0x50u8, 0x53, 0x2D, 0x58, 0x20, 0x45, 0x58, 0x45]]),
{
    vec![vec![0x50, 0x53, 0x2D, 0x58, 0x20, 0x45, 0x58, 0x45]]
}

/// How an executable is described
pub open spec fn psx_description(header: PSXHeader) -> Seq<char> {
    DESCRIPTION@ + ", entry point: 0x"@ + hex_digits(header.entry_point as nat)
        + ", load address: 0x"@ + hex_digits(header.text_address as nat) + ", total size: "@ + dec(
        (header.header_size + header.text_size) as nat,
    ) + " bytes"@
}

/// Validate a PlayStation executable signature
///
/// The header is one sector, and the text section follows it; the size is reported where all of
/// it is there.
pub fn psx_parser(file_data: &[u8], offset: usize) -> (result: Result<
    SignatureResult,
    SignatureError,
>)
    requires
        offset <= file_data.len(),
    ensures
        result is Ok <==> psx_header(file_data@.subrange(offset as int, file_data.len() as int))
            is Some,
        result matches Ok(r) ==> {
            let header = psx_header(file_data@.subrange(offset as int, file_data.len() as int))->0;
            let total_size = header.header_size + header.text_size;
            r.describes(
                offset as int,
                if total_size <= file_data.len() - offset {
                    total_size
                } else {
                    0
                },
                psx_description(header),
                CONFIDENCE_HIGH,
            )
        },
{
    let available_data = file_data.len() - offset;
    let psx_data = slice_subrange(file_data, offset, file_data.len());
    match parse_psx_header(psx_data) {
        Err(_) => Err(SignatureError),
        Ok(psx_header) => {
            let total_size: u64 = psx_header.header_size as u64 + psx_header.text_size as u64;
            let mut result = SignatureResult::new(offset, DESCRIPTION, CONFIDENCE_HIGH);
            if total_size <= available_data as u64 {
                result.size = total_size as usize;
            }
            result.description.append(", entry point: 0x");
            push_hex_digits(&mut result.description, psx_header.entry_point as u64);
            result.description.append(", load address: 0x");
            push_hex_digits(&mut result.description, psx_header.text_address as u64);
            result.description.append(", total size: ");
            push_dec(&mut result.description, total_size);
            result.description.append(" bytes");
            Ok(result)
        },
    }
}

} // verus!
