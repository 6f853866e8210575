//! GPG signed files and key trust databases
use crate::signatures::common::{magics_are, SignatureError, SignatureResult, CONFIDENCE_MEDIUM};
use crate::structures::gpg::{
    parse_gpg_trustdb_version_record, trust_model, trust_model_name, trustdb_version_record,
};
use crate::text::{dec, push_dec};
use vstd::prelude::*;
use vstd::slice::slice_subrange;
use vstd::string::StringExecFns;

verus! {

/// Human readable descriptions
pub const GPG_SIGNED_DESCRIPTION: &'static str = "GPG signed file";

pub const GPG_TRUSTDB_DESCRIPTION: &'static str = "GPG key trust database";

/// GPG key trust databases start with a version record, which starts with these bytes
pub fn gpg_trustdb_magic() -> (magics: Vec<Vec<u8>>)
    ensures
        magics_are(magics, seq![seq![0x01u8, 0x67, 0x70, 0x67]]),
{
    vec![vec![0x01, 0x67, 0x70, 0x67]]
}

/// GPG signed files start with these two bytes
pub fn gpg_signed_magic() -> (magics: Vec<Vec<u8>>)
    ensures
        magics_are(magics, seq![seq![0xA3u8, 0x01]]),
{
    vec![vec![0xA3, 0x01]]
}

/// Validate a GPG key trust database signature
///
/// A trust database is a series of fixed size records, and does not describe how many of them
/// there are, so the size is left unknown; only the version record at the start of it is parsed.
pub fn gpg_trustdb_parser(file_data: &[u8], offset: usize) -> (result: Result<
    SignatureResult,
    SignatureError,
>)
    requires
        offset <= file_data.len(),
    ensures
        result is Ok <==> trustdb_version_record(
            file_data@.subrange(offset as int, file_data.len() as int),
        ) is Some,
        result matches Ok(r) ==> {
            let record = trustdb_version_record(
                file_data@.subrange(offset as int, file_data.len() as int),
            )->0;
            r.describes(
                offset as int,
                0,
                GPG_TRUSTDB_DESCRIPTION@ + ", version: "@ + dec(record.version as nat)
                    + ", trust model: "@ + trust_model_name(record.trust_model)->0,
                CONFIDENCE_MEDIUM,
            )
        },
{
    let trustdb_data = slice_subrange(file_data, offset, file_data.len());
    match parse_gpg_trustdb_version_record(trustdb_data) {
        Err(_) => Err(SignatureError),
        Ok(version_record) => match trust_model(version_record.trust_model) {
            Some(model) => {
                let mut result = SignatureResult::new(
                    offset,
                    GPG_TRUSTDB_DESCRIPTION,
                    CONFIDENCE_MEDIUM,
                );
                result.description.append(", version: ");
                push_dec(&mut result.description, version_record.version as u64);
                result.description.append(", trust model: ");
                result.description.append(model);
                Ok(result)
            },
            None => Err(SignatureError),
        },
    }
}

} // verus!
