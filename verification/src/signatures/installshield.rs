//! InstallShield cabinet archives
use crate::signatures::common::{magics_are, SignatureError, SignatureResult, CONFIDENCE_MEDIUM};
use crate::structures::installshield::{installshield_header, parse_installshield_header, InstallShieldHeader};
use crate::text::{dec, hex_digits, push_dec, push_hex_digits};
use vstd::prelude::*;
use vstd::slice::slice_subrange;
use vstd::string::StringExecFns;

verus! {

/// Human readable description
pub const DESCRIPTION: &'static str = "InstallShield cabinet archive";

/// InstallShield cabinets start with these magic bytes
pub fn installshield_magic() -> (magics: Vec<Vec<u8>>)
    ensures
        magics_are(magics, seq![seq![0x49u8, 0x53, 0x63, 0x28]]),
{
    vec![vec![0x49, 0x53, 0x63, 0x28]]
}

/// Where the cabinet ends: where its descriptor ends
pub open spec fn cabinet_size(header: InstallShieldHeader) -> int {
    header.descriptor_offset + header.descriptor_size
}

/// How a cabinet is described
pub open spec fn cabinet_description(header: InstallShieldHeader) -> Seq<char> {
    DESCRIPTION@ + ", version: 0x"@ + hex_digits(header.version as nat) + ", total size: "@ + dec(
        cabinet_size(header) as nat,
    ) + " bytes"@
}

/// Validate an InstallShield cabinet signature
///
/// The descriptor sits at the end of the cabinet, so where it ends is where the cabinet ends; a
/// descriptor that runs past the available data is a false positive.
pub fn installshield_parser(file_data: &[u8], offset: usize) -> (result: Result<
    SignatureResult,
    SignatureError,
>)
    requires
        offset <= file_data.len(),
    ensures
        result is Ok <==> {
            let header = installshield_header(
                file_data@.subrange(offset as int, file_data.len() as int),
            );
            header is Some && cabinet_size(header->0) <= file_data.len() - offset
        },
        result matches Ok(r) ==> {
            let header = installshield_header(
                file_data@.subrange(offset as int, file_data.len() as int),
            )->0;
            r.describes(
                offset as int,
                cabinet_size(header),
                cabinet_description(header),
                CONFIDENCE_MEDIUM,
            )
        },
{
    let available_data = file_data.len() - offset;
    let cabinet_data = slice_subrange(file_data, offset, file_data.len());
    match parse_installshield_header(cabinet_data) {
        Err(_) => Err(SignatureError),
        Ok(cabinet_header) => {
            let cabinet_size: u64 = cabinet_header.descriptor_offset as u64
                + cabinet_header.descriptor_size as u64;
            if cabinet_size > available_data as u64 {
                return Err(SignatureError);
            }
            let mut result = SignatureResult::new(offset, DESCRIPTION, CONFIDENCE_MEDIUM);
            result.size = cabinet_size as usize;
            result.description.append(", version: 0x");
            push_hex_digits(&mut result.description, cabinet_header.version as u64);
            result.description.append(", total size: ");
            push_dec(&mut result.description, cabinet_size);
            result.description.append(" bytes");
            Ok(result)
        },
    }
}

} // verus!
