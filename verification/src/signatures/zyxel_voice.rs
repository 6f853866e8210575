//! ZyXEL voice data
use crate::signatures::common::{magics_are, SignatureError, SignatureResult, CONFIDENCE_LOW};
use vstd::prelude::*;

verus! {

/// Human readable description
pub const DESCRIPTION: &'static str = "ZyXEL voice data";

/// ZyXEL voice data starts with this
pub fn zyxel_voice_magic() -> (magics: Vec<Vec<u8>>)
    ensures
        magics_are(magics, seq![seq![0x5Au8, 0x79, 0x58, 0x45, 0x4C, 0x02]]),
{
    vec![vec![0x5A, 0x79, 0x58, 0x45, 0x4C, 0x02]]
}

/// Validate a ZyXEL voice data signature
///
/// Nothing after the magic is documented, and it does not describe the length of the data, so
/// there is nothing to validate and no size to report.
pub fn zyxel_voice_parser(_file_data: &[u8], offset: usize) -> (result: Result<
    SignatureResult,
    SignatureError,
>)
    ensures
        result matches Ok(r) && r.describes(offset as int, 0, DESCRIPTION@, CONFIDENCE_LOW),
{
    Ok(SignatureResult::new(offset, DESCRIPTION, CONFIDENCE_LOW))
}

} // verus!
