//! JAR archives of ARJ Software, plain and self extracting
use crate::signatures::common::{
    magics_are, SignatureError, SignatureResult, CONFIDENCE_LOW, CONFIDENCE_MEDIUM,
};
use vstd::prelude::*;
use vstd::string::StringExecFns;

verus! {

/// Human readable description
pub const DESCRIPTION: &'static str = "JAR archive (ARJ Software)";

/// The signature of an archive sits this far into its first local header
pub const HEADER_MAGIC_OFFSET: usize = 14;

/// Archives carry this signature inside their first local header
pub fn arj_jar_magic() -> (magics: Vec<Vec<u8>>)
    ensures
        magics_are(magics, seq![seq![0x1Au8, 0x4A, 0x61, 0x72, 0x1B]]),
{
    vec![vec![0x1A, 0x4A, 0x61, 0x72, 0x1B]]
}

/// Self extracting archives start with this instead
pub fn arj_jar_sfx_magic() -> (magics: Vec<Vec<u8>>)
    ensures
        magics_are(magics, seq![seq![0x4Au8, 0x41, 0x52, 0x43, 0x53]]),
{
    vec![vec![0x4A, 0x41, 0x52, 0x43, 0x53]]
}

/// Validate a JAR archive signature: the archive starts at the local header that holds the
/// signature. Nothing else in the header is documented, and it does not describe the length of
/// the archive, so no size is reported.
pub fn arj_jar_parser(_file_data: &[u8], offset: usize) -> (result: Result<
    SignatureResult,
    SignatureError,
>)
    ensures
        match result {
            Ok(r) => {
                &&& offset >= HEADER_MAGIC_OFFSET
                &&& r.describes(offset - HEADER_MAGIC_OFFSET, 0, DESCRIPTION@, CONFIDENCE_MEDIUM)
            },
            Err(_) => offset < HEADER_MAGIC_OFFSET,
        },
{
    // The archive starts before the signature, at the start of the local header that holds it
    if offset < HEADER_MAGIC_OFFSET {
        return Err(SignatureError);
    }
    Ok(SignatureResult::new(offset - HEADER_MAGIC_OFFSET, DESCRIPTION, CONFIDENCE_MEDIUM))
}

/// Validate a self extracting JAR archive signature
pub fn arj_jar_sfx_parser(_file_data: &[u8], offset: usize) -> (result: Result<
    SignatureResult,
    SignatureError,
>)
    ensures
        result matches Ok(r) && r.describes(
            offset as int,
            0,
            DESCRIPTION@ + ", self extracting"@,
            CONFIDENCE_LOW,
        ),
{
    let mut result = SignatureResult::new(offset, DESCRIPTION, CONFIDENCE_LOW);
    result.description.append(", self extracting");
    Ok(result)
}

} // verus!
