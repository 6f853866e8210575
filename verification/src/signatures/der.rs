//! DER encoded keys, certificates and signatures
use crate::signatures::common::{magics_are, SignatureError, SignatureResult, CONFIDENCE_MEDIUM};
use crate::structures::der::{der_structure, parse_der_structure, DERContents};
use crate::text::{dec, push_dec};
use vstd::prelude::*;
use vstd::slice::slice_subrange;
use vstd::string::StringExecFns;

verus! {

/// Human readable descriptions
pub const PRIVATE_KEY_DESCRIPTION: &'static str = "Private key in DER format (PKCS#8)";

pub const CERTIFICATE_DESCRIPTION: &'static str = "Certificate in DER format (x509 v3)";

pub const SIGNATURE_DESCRIPTION: &'static str = "Object signature in DER format (PKCS#7)";

pub const DESCRIPTION: &'static str = "DER encoded data";

/// All three of these are a DER sequence whose length is given in two bytes
pub fn der_magic() -> (magics: Vec<Vec<u8>>)
    ensures
        magics_are(magics, seq![seq![0x30u8, 0x82]]),
{
    vec![vec![0x30, 0x82]]
}

/// How each kind of structure is described
pub open spec fn contents_description(contents: DERContents) -> Seq<char> {
    match contents {
        DERContents::PrivateKey => PRIVATE_KEY_DESCRIPTION@,
        DERContents::Certificate => CERTIFICATE_DESCRIPTION@,
        DERContents::Signature => SIGNATURE_DESCRIPTION@,
    }
}

/// Validate a DER structure signature
///
/// The length in the header covers everything after it, which gives the size of the structure;
/// a structure that runs past the available data is a false positive.
pub fn der_parser(file_data: &[u8], offset: usize) -> (result: Result<
    SignatureResult,
    SignatureError,
>)
    requires
        offset <= file_data.len(),
    ensures
        result is Ok <==> {
            let der = der_structure(file_data@.subrange(offset as int, file_data.len() as int));
            der is Some && der->0.total_size <= file_data.len() - offset
        },
        result matches Ok(r) ==> {
            let der = der_structure(file_data@.subrange(offset as int, file_data.len() as int))->0;
            r.describes(
                offset as int,
                der.total_size as int,
                contents_description(der.contents) + ", total size: "@ + dec(der.total_size as nat)
                    + " bytes"@,
                CONFIDENCE_MEDIUM,
            )
        },
{
    let available_data = file_data.len() - offset;
    let der_data = slice_subrange(file_data, offset, file_data.len());
    match parse_der_structure(der_data) {
        Err(_) => Err(SignatureError),
        Ok(der) => {
            if der.total_size > available_data {
                return Err(SignatureError);
            }
            let description = match der.contents {
                DERContents::PrivateKey => PRIVATE_KEY_DESCRIPTION,
                DERContents::Certificate => CERTIFICATE_DESCRIPTION,
                DERContents::Signature => SIGNATURE_DESCRIPTION,
            };
            let mut result = SignatureResult::new(offset, description, CONFIDENCE_MEDIUM);
            result.size = der.total_size;
            result.description.append(", total size: ");
            push_dec(&mut result.description, der.total_size as u64);
            result.description.append(" bytes");
            Ok(result)
        },
    }
}

} // verus!
