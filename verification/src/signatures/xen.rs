//! Xen saved domain files
use crate::signatures::common::{magics_are, SignatureError, SignatureResult, CONFIDENCE_HIGH};
use vstd::prelude::*;

verus! {

/// Human readable description
pub const DESCRIPTION: &'static str = "Xen saved domain file";

/// A saved domain starts with this
pub fn xen_magic() -> (magics: Vec<Vec<u8>>)
    ensures
        magics_are(magics, seq![seq![
            0x4Cu8, 0x69, 0x6E, 0x75, 0x78, 0x47, 0x75, 0x65, 0x73, 0x74, 0x52, 0x65, 0x63, 0x6F,
            0x72, 0x64,
        ]]),
{
    vec![vec![
        0x4C, 0x69, 0x6E, 0x75, 0x78, 0x47, 0x75, 0x65, 0x73, 0x74, 0x52, 0x65, 0x63, 0x6F, 0x72,
        0x64,
    ]]
}

/// Validate a Xen saved domain signature
///
/// The magic is sixteen bytes of text, which is the whole of what identifies the format; what
/// follows it is the saved state of the domain, of no described length.
pub fn xen_parser(_file_data: &[u8], offset: usize) -> (result: Result<
    SignatureResult,
    SignatureError,
>)
    ensures
        result matches Ok(r) && r.describes(offset as int, 0, DESCRIPTION@, CONFIDENCE_HIGH),
{
    Ok(SignatureResult::new(offset, DESCRIPTION, CONFIDENCE_HIGH))
}

} // verus!
