//! Nagra key constants
use crate::signatures::common::{magics_are, SignatureError, SignatureResult, CONFIDENCE_LOW};
use vstd::prelude::*;

verus! {

/// Human readable descriptions
pub const PK_DESCRIPTION: &'static str = "Nagra PK";

pub const CONSTANT_KEY_DESCRIPTION: &'static str = "Nagra Constant_KEY";

/// The Nagra PK constant
pub fn nagra_pk_magic() -> (magics: Vec<Vec<u8>>)
    ensures
        magics_are(magics, seq![seq![0x00u8, 0x00, 0x01, 0x6C]]),
{
    vec![vec![0x00, 0x00, 0x01, 0x6C]]
}

/// The Nagra Constant_KEY constant
pub fn nagra_constant_key_magic() -> (magics: Vec<Vec<u8>>)
    ensures
        magics_are(magics, seq![seq![0x10u8, 0x19, 0x24, 0x31]]),
{
    vec![vec![0x10, 0x19, 0x24, 0x31]]
}

/// Validate a Nagra PK signature
pub fn nagra_pk_parser(_file_data: &[u8], offset: usize) -> (result: Result<
    SignatureResult,
    SignatureError,
>)
    ensures
        result matches Ok(r) && r.describes(offset as int, 0, PK_DESCRIPTION@, CONFIDENCE_LOW),
{
    Ok(nagra_key(offset, PK_DESCRIPTION))
}

/// Validate a Nagra Constant_KEY signature
pub fn nagra_constant_key_parser(_file_data: &[u8], offset: usize) -> (result: Result<
    SignatureResult,
    SignatureError,
>)
    ensures
        result matches Ok(r) && r.describes(
            offset as int,
            0,
            CONSTANT_KEY_DESCRIPTION@,
            CONFIDENCE_LOW,
        ),
{
    Ok(nagra_key(offset, CONSTANT_KEY_DESCRIPTION))
}

/// Both of these are four byte constants with nothing around them to check, so both are only
/// matched at the start of a file and neither reports a size.
fn nagra_key(offset: usize, description: &str) -> (result: SignatureResult)
    ensures
        result.describes(offset as int, 0, description@, CONFIDENCE_LOW),
{
    SignatureResult::new(offset, description, CONFIDENCE_LOW)
}

} // verus!
